use clevo_controlerd::codec::{SINGLE_BYTE_MAX, U16_BYTE};
use clevo_controlerd::component::cpu::{Cpu, CpuError};
use clevo_controlerd::component::dispatch::{Dispatcher, TARGET_CPU, TARGET_GPU};
use clevo_controlerd::component::fan_requests::{
    decode_rpm_reply, handle_fan_request, CMD_GET_FAN_RPM, CMD_SET_FAN_AUTO, CMD_SET_FAN_SPEED,
};
use clevo_controlerd::component::gpu::Gpu;
use clevo_controlerd::component::{
    unsupported_operation, Component, ComponentError, FieldError, Msg, MsgError, Packet,
    StreamError,
};
use clevo_controlerd::lowlevel::accessor::ec::EcCommand;
use clevo_controlerd::lowlevel::middleware::fan::{Fan, FanIndex};

fn msg(target: u8, command: u8, payload: &[u8]) -> Msg {
    Msg {
        packet: Packet {
            target,
            command,
            payload: payload.to_vec(),
        },
    }
}

fn fan_with_period(index: FanIndex, hi: u8, lo: u8) -> Fan {
    let mut fan = Fan::new();
    let (hi_addr, lo_addr) = match index {
        FanIndex::CPU => (0xD0, 0xD1),
        FanIndex::GPU => (0xD2, 0xD3),
    };
    fan.store_register(hi_addr, hi);
    fan.store_register(lo_addr, lo);
    fan
}

fn unsupported_text(err: MsgError) -> String {
    match err {
        MsgError::UnsupportedOperation(text) => text,
        other => panic!("expected an unsupported operation, got {other:?}"),
    }
}

fn field_text(err: ComponentError) -> String {
    match err {
        ComponentError::FieldError(text) => text,
        other => panic!("expected a field error, got {other:?}"),
    }
}

#[test]
fn unsupported_operation_names_the_code() {
    assert_eq!(
        unsupported_text(unsupported_operation(0)),
        "Operation not supported by the hardware:0"
    );
    assert_eq!(
        unsupported_text(unsupported_operation(7)),
        "Operation not supported by the hardware:7"
    );
    assert_eq!(
        unsupported_text(unsupported_operation(10)),
        "Operation not supported by the hardware:10"
    );
    assert_eq!(
        unsupported_text(unsupported_operation(99)),
        "Operation not supported by the hardware:99"
    );
    assert_eq!(
        unsupported_text(unsupported_operation(100)),
        "Operation not supported by the hardware:100"
    );
    assert_eq!(
        unsupported_text(unsupported_operation(205)),
        "Operation not supported by the hardware:205"
    );
    assert_eq!(
        unsupported_text(unsupported_operation(255)),
        "Operation not supported by the hardware:255"
    );
}

#[test]
fn unsupported_text_matches_plain_formatting_for_every_code() {
    for code in 0..=255u8 {
        assert_eq!(
            unsupported_text(unsupported_operation(code)),
            format!("Operation not supported by the hardware:{}", code)
        );
    }
}

#[test]
fn gpu_rejects_unknown_command_by_code() {
    let mut gpu = Gpu::new();
    let mut fan = Fan::new();
    let err = gpu
        .handle_request(&msg(2, 0x42, &[1, 2, 3]), &mut fan)
        .unwrap_err();
    assert_eq!(
        unsupported_text(err),
        "Operation not supported by the hardware:66"
    );
    assert!(fan.take_commands().is_empty());
}

#[test]
fn cpu_rejects_unknown_command_by_code() {
    let mut cpu = Cpu::new();
    let mut fan = Fan::new();
    let err = cpu.handle_request(&msg(1, 0, &[]), &mut fan).unwrap_err();
    assert_eq!(
        unsupported_text(err),
        "Operation not supported by the hardware:0"
    );
    let err = cpu.handle_request(&msg(1, 4, &[]), &mut fan).unwrap_err();
    assert_eq!(
        unsupported_text(err),
        "Operation not supported by the hardware:4"
    );
    assert!(fan.take_commands().is_empty());
}

#[test]
fn component_names() {
    assert_eq!(Gpu::new().get_desc(), "GPU");
    assert_eq!(Cpu::new().get_desc(), "CPU");
}

#[test]
fn refresh_does_nothing_and_succeeds() {
    assert!(Gpu::new().refresh_status().is_ok());
    assert!(Cpu::new().refresh_status().is_ok());
}

#[test]
fn speed_query_replies_with_encoded_speed() {
    let mut fan = fan_with_period(FanIndex::GPU, 0x08, 0x34);
    let reply = Gpu::new()
        .handle_request(&msg(2, CMD_GET_FAN_RPM, &[]), &mut fan)
        .unwrap()
        .unwrap();
    // 1026 = 0x0402: marker, low byte, high byte
    assert_eq!(reply, vec![U16_BYTE, 0x02, 0x04]);
    assert!(fan.take_commands().is_empty());
}

#[test]
fn speed_query_reply_of_small_speed_is_one_byte() {
    // 2156220 / 8624 = 250, the largest single-byte value; 8624 = 0x21B0
    let mut fan = fan_with_period(FanIndex::CPU, 0x21, 0xB0);
    let reply = Cpu::new()
        .handle_request(&msg(1, CMD_GET_FAN_RPM, &[]), &mut fan)
        .unwrap()
        .unwrap();
    assert_eq!(reply, vec![SINGLE_BYTE_MAX]);
    // 2156220 / 8590 = 251, the smallest marked value; 8590 = 0x218E
    let mut fan = fan_with_period(FanIndex::CPU, 0x21, 0x8E);
    let reply = Cpu::new()
        .handle_request(&msg(1, CMD_GET_FAN_RPM, &[]), &mut fan)
        .unwrap()
        .unwrap();
    assert_eq!(reply, vec![U16_BYTE, 251, 0]);
}

#[test]
fn speed_query_of_each_component_reads_its_own_fan() {
    let mut fan = fan_with_period(FanIndex::GPU, 0x08, 0x34);
    let gpu = Gpu::new()
        .handle_request(&msg(2, CMD_GET_FAN_RPM, &[]), &mut fan)
        .unwrap()
        .unwrap();
    let cpu = Cpu::new()
        .handle_request(&msg(1, CMD_GET_FAN_RPM, &[]), &mut fan)
        .unwrap()
        .unwrap();
    assert_eq!(decode_rpm_reply(&gpu).unwrap(), 1026);
    assert_eq!(decode_rpm_reply(&cpu).unwrap(), 0);
}

#[test]
fn speed_reply_round_trips() {
    for (hi, lo) in [(0u8, 0u8), (0, 1), (0, 33), (0x08, 0x34), (0x21, 0xB1), (0xFF, 0xFF)] {
        let mut fan = fan_with_period(FanIndex::GPU, hi, lo);
        let expected = fan.get_fan_rpm(FanIndex::GPU);
        let reply = handle_fan_request(FanIndex::GPU, &msg(2, CMD_GET_FAN_RPM, &[]), &mut fan)
            .unwrap()
            .unwrap();
        assert_eq!(decode_rpm_reply(&reply).unwrap(), expected);
    }
}

#[test]
fn speed_reply_matches_bincode() {
    for rpm in [0u16, 1, 250, 251, 255, 256, 1026, 65535] {
        let bytes = bincode::encode_to_vec(rpm, bincode::config::standard()).unwrap();
        assert_eq!(decode_rpm_reply(&bytes).unwrap(), rpm);
    }
}

#[test]
fn rpm_reply_decoding_ignores_what_follows() {
    assert_eq!(decode_rpm_reply(&[7, 9, 9]).unwrap(), 7);
    assert_eq!(decode_rpm_reply(&[251, 0x02, 0x04, 0xAA]).unwrap(), 1026);
}

#[test]
fn rpm_reply_decoding_rejects_what_is_no_value() {
    for bad in [&[][..], &[251][..], &[251, 1][..], &[252, 0, 0, 0, 0][..], &[255][..]] {
        let text = field_text(decode_rpm_reply(bad).unwrap_err());
        assert!(text.starts_with("Decode error: "), "{text}");
        assert!(text.len() > "Decode error: ".len());
    }
}

#[test]
fn duty_command_queues_index_then_duty() {
    let mut fan = Fan::new();
    let reply = Gpu::new()
        .handle_request(&msg(2, CMD_SET_FAN_SPEED, &[127]), &mut fan)
        .unwrap();
    assert_eq!(reply, None);
    assert_eq!(
        fan.take_commands(),
        vec![EcCommand {
            command: 0x99,
            arg1: 2,
            arg2: 127
        }]
    );
}

#[test]
fn duty_command_takes_the_first_payload_byte() {
    let mut fan = Fan::new();
    let reply = Cpu::new()
        .handle_request(&msg(1, CMD_SET_FAN_SPEED, &[255, 1, 2]), &mut fan)
        .unwrap();
    assert_eq!(reply, None);
    assert_eq!(
        fan.take_commands(),
        vec![EcCommand {
            command: 0x99,
            arg1: 1,
            arg2: 255
        }]
    );
}

#[test]
fn duty_command_without_payload_is_a_field_error() {
    let mut fan = Fan::new();
    let err = Gpu::new()
        .handle_request(&msg(2, CMD_SET_FAN_SPEED, &[]), &mut fan)
        .unwrap_err();
    match err {
        MsgError::Component(inner) => {
            let text = field_text(inner);
            assert!(text.starts_with("Decode error: "), "{text}");
            assert!(text.contains("UnexpectedEnd"), "{text}");
        }
        other => panic!("expected a component failure, got {other:?}"),
    }
    assert!(fan.take_commands().is_empty());
}

#[test]
fn auto_command_queues_marker_then_index() {
    let mut fan = Fan::new();
    let reply = Gpu::new()
        .handle_request(&msg(2, CMD_SET_FAN_AUTO, &[]), &mut fan)
        .unwrap();
    assert_eq!(reply, None);
    let reply = Cpu::new()
        .handle_request(&msg(1, CMD_SET_FAN_AUTO, &[9]), &mut fan)
        .unwrap();
    assert_eq!(reply, None);
    assert_eq!(
        fan.take_commands(),
        vec![
            EcCommand {
                command: 0x99,
                arg1: 0xFF,
                arg2: 2
            },
            EcCommand {
                command: 0x99,
                arg1: 0xFF,
                arg2: 1
            }
        ]
    );
}

#[test]
fn cpu_error_becomes_lower_level_error() {
    let err = ComponentError::from(CpuError {
        detail: String::from("sensor gone"),
    });
    assert!(matches!(err, ComponentError::LowerlevelError(text) if text == "sensor gone"));
}

#[test]
fn field_error_stays_field_error() {
    let err = ComponentError::from(FieldError {
        detail: String::from("no such field"),
    });
    assert!(matches!(err, ComponentError::FieldError(text) if text == "no such field"));
}

#[test]
fn stream_error_becomes_query_error_with_prefix() {
    let err = ComponentError::from(StreamError {
        detail: String::from("broken pipe"),
    });
    assert!(matches!(err, ComponentError::QueryError(text) if text == "Stream error: broken pipe"));
}

#[test]
fn encode_error_becomes_field_error_with_prefix() {
    let err = ComponentError::from(bincode::error::EncodeError::UnexpectedEnd);
    assert_eq!(field_text(err), "Encode error: UnexpectedEnd");
    let err = ComponentError::from(bincode::error::EncodeError::Other("full"));
    assert_eq!(field_text(err), "Encode error: Other(\"full\")");
}

#[test]
fn decode_error_becomes_field_error_with_prefix() {
    let err = ComponentError::from(bincode::error::DecodeError::LimitExceeded);
    assert_eq!(field_text(err), "Decode error: LimitExceeded");
    let err = ComponentError::from(bincode::error::DecodeError::UnexpectedEnd { additional: 1 });
    assert_eq!(
        field_text(err),
        "Decode error: UnexpectedEnd { additional: 1 }"
    );
}

#[test]
fn failure_constructors_put_the_prefix_first() {
    assert_eq!(
        field_text(ComponentError::encode_failure("x")),
        "Encode error: x"
    );
    assert_eq!(
        field_text(ComponentError::decode_failure("")),
        "Decode error: "
    );
}

/// A component that overrides nothing.
struct Bare;

impl Component for Bare {}

#[test]
fn default_description_is_the_placeholder() {
    assert_eq!(Bare.get_desc(), "Unname hardware");
}

#[test]
fn default_refresh_succeeds() {
    assert!(Bare.refresh_status().is_ok());
}

#[test]
fn default_handler_rejects_every_command_by_code() {
    let mut fan = Fan::new();
    for code in [0u8, CMD_GET_FAN_RPM, CMD_SET_FAN_SPEED, CMD_SET_FAN_AUTO, 200] {
        let err = Bare
            .handle_request(&msg(9, code, &[1]), &mut fan)
            .unwrap_err();
        assert_eq!(
            unsupported_text(err),
            format!("Operation not supported by the hardware:{}", code)
        );
    }
    assert!(fan.take_commands().is_empty());
}

#[test]
fn dispatcher_routes_by_target() {
    let mut dispatcher = Dispatcher::new();
    let mut fan = Fan::new();
    let reply = dispatcher
        .dispatch(&msg(TARGET_GPU, CMD_SET_FAN_AUTO, &[]), &mut fan)
        .unwrap();
    assert_eq!(reply.unwrap(), None);
    let reply = dispatcher
        .dispatch(&msg(TARGET_CPU, CMD_SET_FAN_SPEED, &[9]), &mut fan)
        .unwrap();
    assert_eq!(reply.unwrap(), None);
    assert_eq!(
        fan.take_commands(),
        vec![
            EcCommand {
                command: 0x99,
                arg1: 0xFF,
                arg2: 2
            },
            EcCommand {
                command: 0x99,
                arg1: 1,
                arg2: 9
            }
        ]
    );
}

#[test]
fn dispatcher_reads_the_fan_of_the_target() {
    let mut dispatcher = Dispatcher::new();
    let mut fan = fan_with_period(FanIndex::CPU, 0x08, 0x34);
    let cpu = dispatcher
        .dispatch(&msg(TARGET_CPU, CMD_GET_FAN_RPM, &[]), &mut fan)
        .unwrap()
        .unwrap()
        .unwrap();
    let gpu = dispatcher
        .dispatch(&msg(TARGET_GPU, CMD_GET_FAN_RPM, &[]), &mut fan)
        .unwrap()
        .unwrap()
        .unwrap();
    assert_eq!(decode_rpm_reply(&cpu).unwrap(), 1026);
    assert_eq!(decode_rpm_reply(&gpu).unwrap(), 0);
}

#[test]
fn dispatcher_passes_on_the_failure_of_the_component() {
    let mut dispatcher = Dispatcher::new();
    let mut fan = Fan::new();
    let err = dispatcher
        .dispatch(&msg(TARGET_GPU, 77, &[]), &mut fan)
        .unwrap()
        .unwrap_err();
    assert_eq!(
        unsupported_text(err),
        "Operation not supported by the hardware:77"
    );
}

#[test]
fn dispatcher_leaves_unknown_targets_unanswered() {
    let mut dispatcher = Dispatcher::new();
    let mut fan = Fan::new();
    for target in [0u8, 3, 255] {
        assert!(dispatcher
            .dispatch(&msg(target, CMD_SET_FAN_AUTO, &[]), &mut fan)
            .is_none());
    }
    assert!(fan.take_commands().is_empty());
}
