//! The fan commands of the protocol, which the CPU and the GPU component
//! answer alike, each for its own fan.

use crate::codec::{decode_u16, decode_u8, encode_u16, u16_decoding, u16_encoding, u8_decoding};
use crate::component::{
    decode_prefix, starts_with, unsupported, unsupported_operation, ComponentError,
    ComponentErrorView, Msg, MsgError, MsgErrorView,
};
use crate::lowlevel::accessor::ec::{EcCommand, EcState};
use crate::lowlevel::middleware::fan::{auto_command, fan_rpm, speed_command, Fan, FanIndex};
use vstd::prelude::*;

verus! {

/// Asks for the fan's speed. No payload; the reply is the encoded speed.
pub const CMD_GET_FAN_RPM: u8 = 1;

/// Drives the fan at a duty given in parts of 255. The payload is the
/// encoded duty byte; there is no reply payload.
pub const CMD_SET_FAN_SPEED: u8 = 2;

/// Hands the fan back to automatic control. No payload, no reply payload.
pub const CMD_SET_FAN_AUTO: u8 = 3;

/// Whether `command` is one of the fan commands.
pub open spec fn is_fan_command(command: u8) -> bool {
    command == CMD_GET_FAN_RPM || command == CMD_SET_FAN_SPEED || command == CMD_SET_FAN_AUTO
}

/// Whether `err` is the field error for bytes that could not be decoded:
/// its text begins with the decoding prefix.
pub open spec fn is_decode_failure(err: ComponentErrorView) -> bool {
    err matches ComponentErrorView::FieldError(text) && starts_with(text, decode_prefix())
}

/// `state` with `command` queued behind what was waiting.
pub open spec fn with_command(state: EcState, command: EcCommand) -> EcState {
    EcState { registers: state.registers, pending: state.pending.push(command) }
}

/// What answering a message for the fan `index` comes to: the channel
/// `after` the message and the `reply`, given the channel `before`.
///
/// The speed query changes nothing and replies with the encoded speed. The
/// duty command decodes a byte from the start of the payload and queues the
/// speed command for it; a payload that holds none is a field error and
/// nothing is queued. The automatic-mode command queues its command. Both
/// commands reply without a payload. Any other code is answered with the
/// failure that names it, and nothing is queued.
pub open spec fn fan_request_outcome(
    index: FanIndex,
    command: u8,
    payload: Seq<u8>,
    before: EcState,
    after: EcState,
    reply: Result<Option<Vec<u8>>, MsgError>,
) -> bool {
    if command == CMD_GET_FAN_RPM {
        &&& after == before
        &&& reply matches Ok(Some(bytes))
        &&& bytes@ == u16_encoding(fan_rpm(before, index))
    } else if command == CMD_SET_FAN_SPEED {
        match u8_decoding(payload) {
            Some((duty, _)) => {
                &&& after == with_command(before, speed_command(duty, index))
                &&& reply matches Ok(None)
            },
            None => {
                &&& after == before
                &&& reply matches Err(err)
                &&& err@ matches MsgErrorView::Component(failure)
                &&& is_decode_failure(failure)
            },
        }
    } else if command == CMD_SET_FAN_AUTO {
        &&& after == with_command(before, auto_command(index))
        &&& reply matches Ok(None)
    } else {
        &&& after == before
        &&& reply matches Err(err)
        &&& err@ == unsupported(command)
    }
}

/// Answers `msg` for the fan `index`.
pub fn handle_fan_request(index: FanIndex, msg: &Msg, fan: &mut Fan) -> (reply: Result<
    Option<Vec<u8>>,
    MsgError,
>)
    ensures
        fan_request_outcome(
            index,
            msg.packet.command,
            msg.packet.payload@,
            old(fan)@,
            final(fan)@,
            reply,
        ),
{
    let command = msg.packet.command;
    if command == CMD_GET_FAN_RPM {
        let rpm = fan.get_fan_rpm(index);
        match encode_u16(rpm) {
            Ok(bytes) => Ok(Some(bytes)),
            Err(err) => Err(MsgError::Component(ComponentError::from(err))),
        }
    } else if command == CMD_SET_FAN_SPEED {
        match decode_u8(msg.packet.payload.as_slice()) {
            Ok((duty, _)) => {
                fan.set_fan_speed(duty, index);
                Ok(None)
            },
            Err(err) => Err(MsgError::Component(ComponentError::from(err))),
        }
    } else if command == CMD_SET_FAN_AUTO {
        fan.set_fan_auto(index);
        Ok(None)
    } else {
        Err(unsupported_operation(command))
    }
}

/// Decodes the reply payload of the speed query. It succeeds exactly where
/// the payload starts with an encoded 16-bit value; anything else is a
/// field error.
pub fn decode_rpm_reply(payload: &[u8]) -> (rpm: Result<u16, ComponentError>)
    ensures
        match u16_decoding(payload@) {
            Some((value, _)) => rpm matches Ok(decoded) && decoded == value,
            None => rpm matches Err(err) && is_decode_failure(err@),
        },
{
    match decode_u16(payload) {
        Ok((value, _)) => Ok(value),
        Err(err) => Err(ComponentError::from(err)),
    }
}

/// The reply payload of a speed query decodes to the speed that the query
/// found.
pub proof fn lemma_rpm_reply_round_trip(
    index: FanIndex,
    payload: Seq<u8>,
    before: EcState,
    after: EcState,
    reply: Result<Option<Vec<u8>>, MsgError>,
)
    requires
        fan_request_outcome(index, CMD_GET_FAN_RPM, payload, before, after, reply),
    ensures
        reply matches Ok(Some(bytes)) && u16_decoding(bytes@) == Some(
            (fan_rpm(before, index), bytes@.len()),
        ),
{
    crate::codec::lemma_u16_round_trip(fan_rpm(before, index));
}

} // verus!
