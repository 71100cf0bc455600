//! Component dispatch: the capability set that every hardware component
//! offers, the messages it answers and the failures it reports.

pub mod cpu;
pub mod dispatch;
pub mod fan_requests;
pub mod gpu;

use crate::codec::{decode_error_text, encode_error_text};
use crate::component::cpu::CpuError;
use crate::lowlevel::middleware::fan::Fan;
use vstd::prelude::*;
use vstd::std_specs::convert::FromSpecImpl;
use vstd::string::*;

verus! {

/// A payload that does not have the shape its command expects.
#[derive(Debug)]
pub struct FieldError {
    pub detail: String,
}

/// A fault of the byte stream that carries a query.
#[derive(Debug)]
pub struct StreamError {
    pub detail: String,
}

/// The failures that a component reports to its callers.
#[derive(Debug)]
pub enum ComponentError {
    /// A lower layer failed while executing; the text is its own message.
    LowerlevelError(String),
    /// A payload could not be decoded or a reply could not be encoded.
    FieldError(String),
    /// The hardware could not be queried.
    QueryError(String),
    /// The command is known but the hardware cannot perform it.
    OperationNotSupport,
    /// No consistent reply could be built.
    BadReply,
}

/// A [`ComponentError`] with its texts as character sequences.
pub enum ComponentErrorView {
    LowerlevelError(Seq<char>),
    FieldError(Seq<char>),
    QueryError(Seq<char>),
    OperationNotSupport,
    BadReply,
}

impl View for ComponentError {
    type V = ComponentErrorView;

    open spec fn view(&self) -> ComponentErrorView {
        match self {
            ComponentError::LowerlevelError(text) => ComponentErrorView::LowerlevelError(text@),
            ComponentError::FieldError(text) => ComponentErrorView::FieldError(text@),
            ComponentError::QueryError(text) => ComponentErrorView::QueryError(text@),
            ComponentError::OperationNotSupport => ComponentErrorView::OperationNotSupport,
            ComponentError::BadReply => ComponentErrorView::BadReply,
        }
    }
}

/// Text put before the message of a stream fault.
pub open spec fn stream_prefix() -> Seq<char> {
    "Stream error: "@
}

/// Text put before the message of an encoding fault.
pub open spec fn encode_prefix() -> Seq<char> {
    "Encode error: "@
}

/// Text put before the message of a decoding fault.
pub open spec fn decode_prefix() -> Seq<char> {
    "Decode error: "@
}

impl ComponentError {
    /// The field error for a reply that could not be encoded, `detail`
    /// being the encoder's own message.
    pub fn encode_failure(detail: &str) -> (err: ComponentError)
        ensures
            err@ == ComponentErrorView::FieldError(encode_prefix() + detail@),
    {
        ComponentError::FieldError(String::from_str("Encode error: ").concat(detail))
    }

    /// The field error for a payload that could not be decoded, `detail`
    /// being the decoder's own message.
    pub fn decode_failure(detail: &str) -> (err: ComponentError)
        ensures
            err@ == ComponentErrorView::FieldError(decode_prefix() + detail@),
    {
        ComponentError::FieldError(String::from_str("Decode error: ").concat(detail))
    }
}

impl From<CpuError> for ComponentError {
    fn from(err: CpuError) -> (converted: ComponentError)
        ensures
            converted@ == ComponentErrorView::LowerlevelError(err.detail@),
    {
        ComponentError::LowerlevelError(err.detail)
    }
}

impl FromSpecImpl<CpuError> for ComponentError {
    open spec fn obeys_from_spec() -> bool {
        true
    }

    open spec fn from_spec(err: CpuError) -> ComponentError {
        ComponentError::LowerlevelError(err.detail)
    }
}

impl From<FieldError> for ComponentError {
    fn from(err: FieldError) -> (converted: ComponentError)
        ensures
            converted@ == ComponentErrorView::FieldError(err.detail@),
    {
        ComponentError::FieldError(err.detail)
    }
}

impl FromSpecImpl<FieldError> for ComponentError {
    open spec fn obeys_from_spec() -> bool {
        true
    }

    open spec fn from_spec(err: FieldError) -> ComponentError {
        ComponentError::FieldError(err.detail)
    }
}

impl From<StreamError> for ComponentError {
    fn from(err: StreamError) -> (converted: ComponentError)
        ensures
            converted@ == ComponentErrorView::QueryError(stream_prefix() + err.detail@),
    {
        ComponentError::QueryError(String::from_str("Stream error: ").concat(err.detail.as_str()))
    }
}

impl FromSpecImpl<StreamError> for ComponentError {
    open spec fn obeys_from_spec() -> bool {
        false
    }

    open spec fn from_spec(err: StreamError) -> ComponentError {
        arbitrary()
    }
}

/// Whether `text` begins with `prefix`.
pub open spec fn starts_with(text: Seq<char>, prefix: Seq<char>) -> bool {
    prefix.len() <= text.len() && text.take(prefix.len() as int) == prefix
}

impl From<bincode::error::EncodeError> for ComponentError {
    /// A field error whose text is that of the encoder after its prefix.
    fn from(err: bincode::error::EncodeError) -> (converted: ComponentError)
        ensures
            converted@ matches ComponentErrorView::FieldError(text) && starts_with(
                text,
                encode_prefix(),
            ),
    {
        let detail = encode_error_text(&err);
        let converted = ComponentError::encode_failure(detail.as_str());
        assert((encode_prefix() + detail@).take(encode_prefix().len() as int) == encode_prefix());
        converted
    }
}

impl FromSpecImpl<bincode::error::EncodeError> for ComponentError {
    open spec fn obeys_from_spec() -> bool {
        false
    }

    open spec fn from_spec(err: bincode::error::EncodeError) -> ComponentError {
        arbitrary()
    }
}

impl From<bincode::error::DecodeError> for ComponentError {
    /// A field error whose text is that of the decoder after its prefix.
    fn from(err: bincode::error::DecodeError) -> (converted: ComponentError)
        ensures
            converted@ matches ComponentErrorView::FieldError(text) && starts_with(
                text,
                decode_prefix(),
            ),
    {
        let detail = decode_error_text(&err);
        let converted = ComponentError::decode_failure(detail.as_str());
        assert((decode_prefix() + detail@).take(decode_prefix().len() as int) == decode_prefix());
        converted
    }
}

impl FromSpecImpl<bincode::error::DecodeError> for ComponentError {
    open spec fn obeys_from_spec() -> bool {
        false
    }

    open spec fn from_spec(err: bincode::error::DecodeError) -> ComponentError {
        arbitrary()
    }
}

/// The routed part of a message: the component it is meant for, the
/// command code and the command's raw payload.
#[derive(Debug)]
pub struct Packet {
    pub target: u8,
    pub command: u8,
    pub payload: Vec<u8>,
}

/// A decoded protocol message.
#[derive(Debug)]
pub struct Msg {
    pub packet: Packet,
}

/// The failures that answer a message.
#[derive(Debug)]
pub enum MsgError {
    /// The component does not know the command; the text names its code.
    UnsupportedOperation(String),
    /// The component knows the command and failed on it.
    Component(ComponentError),
}

/// A [`MsgError`] with its texts as character sequences.
pub enum MsgErrorView {
    UnsupportedOperation(Seq<char>),
    Component(ComponentErrorView),
}

impl View for MsgError {
    type V = MsgErrorView;

    open spec fn view(&self) -> MsgErrorView {
        match self {
            MsgError::UnsupportedOperation(text) => MsgErrorView::UnsupportedOperation(text@),
            MsgError::Component(err) => MsgErrorView::Component(err@),
        }
    }
}

/// The character of a decimal digit.
pub open spec fn digit_char(d: nat) -> char {
    if d == 0 {
        '0'
    } else if d == 1 {
        '1'
    } else if d == 2 {
        '2'
    } else if d == 3 {
        '3'
    } else if d == 4 {
        '4'
    } else if d == 5 {
        '5'
    } else if d == 6 {
        '6'
    } else if d == 7 {
        '7'
    } else if d == 8 {
        '8'
    } else {
        '9'
    }
}

/// The decimal numeral of `n`, without leading zeros.
pub open spec fn decimal(n: nat) -> Seq<char>
    decreases n,
{
    if n < 10 {
        seq![digit_char(n)]
    } else {
        decimal(n / 10).push(digit_char(n % 10))
    }
}

/// Text put before the code of a command that is not supported.
pub open spec fn unsupported_prefix() -> Seq<char> {
    "Operation not supported by the hardware:"@
}

/// The failure that answers the command `command` where a component does
/// not know it: the fixed text followed by the code in decimal.
pub open spec fn unsupported(command: u8) -> MsgErrorView {
    MsgErrorView::UnsupportedOperation(unsupported_prefix() + decimal(command as nat))
}

fn digit_str(d: u8) -> (s: &'static str)
    requires
        d < 10,
    ensures
        s@ == seq![digit_char(d as nat)],
{
    proof {
        reveal_strlit("0");
        reveal_strlit("1");
        reveal_strlit("2");
        reveal_strlit("3");
        reveal_strlit("4");
        reveal_strlit("5");
        reveal_strlit("6");
        reveal_strlit("7");
        reveal_strlit("8");
        reveal_strlit("9");
    }
    let s = if d == 0 {
        "0"
    } else if d == 1 {
        "1"
    } else if d == 2 {
        "2"
    } else if d == 3 {
        "3"
    } else if d == 4 {
        "4"
    } else if d == 5 {
        "5"
    } else if d == 6 {
        "6"
    } else if d == 7 {
        "7"
    } else if d == 8 {
        "8"
    } else {
        "9"
    };
    assert(s@ =~= seq![digit_char(d as nat)]);
    s
}

/// Appends the decimal numeral of `n` to `text`.
fn append_decimal(text: String, n: u8) -> (extended: String)
    ensures
        extended@ == text@ + decimal(n as nat),
{
    let mut extended = text;
    if n >= 100 {
        extended = extended.concat(digit_str(n / 100));
    }
    if n >= 10 {
        extended = extended.concat(digit_str((n / 10) % 10));
    }
    extended = extended.concat(digit_str(n % 10));
    proof {
        let v = n as nat;
        reveal_with_fuel(decimal, 3);
        if v >= 100 {
            assert(decimal(v) =~= seq![digit_char(v / 100)].push(digit_char((v / 10) % 10)).push(
                digit_char(v % 10),
            ));
        } else if v >= 10 {
            assert(decimal(v) =~= seq![digit_char(v / 10)].push(digit_char(v % 10)));
        }
        assert(extended@ =~= text@ + decimal(v));
    }
    extended
}

/// The failure that answers a command that a component does not know.
pub fn unsupported_operation(command: u8) -> (err: MsgError)
    ensures
        err@ == unsupported(command),
{
    let text = String::from_str("Operation not supported by the hardware:");
    MsgError::UnsupportedOperation(append_decimal(text, command))
}

/// The capability set of a hardware component.
pub trait Component {
    /// Whether the hardware has a name of its own: it has none, unless a
    /// component says otherwise.
    open spec fn has_name(&self) -> bool {
        false
    }

    /// Whether refreshing reads the hardware: it does not, unless a
    /// component says otherwise.
    open spec fn polls_hardware(&self) -> bool {
        false
    }

    /// The command codes that this component answers itself: none, unless
    /// a component says otherwise.
    open spec fn recognizes(&self, command: u8) -> bool {
        false
    }

    /// A name for the hardware; a placeholder where it has none of its own.
    fn get_desc(&self) -> (desc: String)
        ensures
            !self.has_name() ==> desc@ == "Unname hardware"@,
    {
        String::from_str("Unname hardware")
    }

    /// Brings the component's picture of the hardware up to date. A
    /// component that does not poll succeeds and stays as it is.
    fn refresh_status(&mut self) -> (refreshed: Result<(), ComponentError>)
        ensures
            !old(self).polls_hardware() ==> refreshed is Ok,
            !old(self).polls_hardware() ==> &*final(self) == &*old(self),
    {
        Ok(())
    }

    /// Answers a message: the reply payload, or `None` for a command that
    /// has none. A command that the component does not recognize is
    /// answered with the failure that names its code, and the fan
    /// middleware is left as it was.
    fn handle_request(&mut self, msg: &Msg, fan: &mut Fan) -> (reply: Result<
        Option<Vec<u8>>,
        MsgError,
    >)
        ensures
            !old(self).recognizes(msg.packet.command) ==> (reply matches Err(err) && err@
                == unsupported(msg.packet.command)),
            !old(self).recognizes(msg.packet.command) ==> final(fan)@ == old(fan)@,
    {
        Err(unsupported_operation(msg.packet.command))
    }
}

} // verus!
