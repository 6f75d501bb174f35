use cleardevil::api::{
    classic_mode_reply, manual_mode_reply, parse_control_type, plan_classic_mode,
    plan_manual_mode, request_error_reply, stop_reply, ControlType, HttpStatus, ReplyBody,
    RequestError, SendOutcome,
};
use cleardevil::commands::get_stop_command;
use cleardevil::scan::is_target_name;
use cleardevil::text::format_command;

#[test]
fn command_listing_matches_reply_format() {
    assert_eq!(format_command(&[0xc3, 0x7f, 0x25, 0x63, 0x61]), "[c3, 7f, 25, 63, 61]");
}

#[test]
fn command_listing_edge_cases() {
    assert_eq!(format_command(&[]), "[]");
    assert_eq!(format_command(&[0x05]), "[05]");
    assert_eq!(format_command(&[0x00, 0xab, 0xff]), "[00, ab, ff]");
}

#[test]
fn command_listing_agrees_with_debug_hex_formatting() {
    let bytes: Vec<u8> = vec![0xc3, 0x7c, 0x27, 0x6d, 0x5e, 0x00, 0x0a];
    assert_eq!(format_command(&bytes), format!("{:02x?}", bytes));
}

#[test]
fn classic_mode_plan_accepts_one_to_ten() {
    assert_eq!(plan_classic_mode(1), Ok(vec![0xc3, 0x7f, 0x25, 0x63, 0x61]));
    assert_eq!(plan_classic_mode(10), Ok(vec![0xc3, 0x7c, 0x25, 0x76, 0x5d]));
    assert_eq!(plan_classic_mode(0), Err(RequestError::ModeOutOfRange));
    assert_eq!(plan_classic_mode(11), Err(RequestError::ModeOutOfRange));
}

#[test]
fn manual_mode_plan_checks_intensity_then_type() {
    assert_eq!(plan_manual_mode("A", 10), Ok((ControlType::Rotation, vec![0xc3, 0x7c, 0x24, 0x68, 0x54])));
    assert_eq!(plan_manual_mode("B", 15), Ok((ControlType::Suction, vec![0xc3, 0x7c, 0x27, 0x6d, 0x5e])));
    assert_eq!(plan_manual_mode("A", 21), Err(RequestError::IntensityOutOfRange));
    assert_eq!(plan_manual_mode("C", 21), Err(RequestError::IntensityOutOfRange));
    assert_eq!(plan_manual_mode("C", 5), Err(RequestError::InvalidControlType));
    assert_eq!(plan_manual_mode("a", 5), Err(RequestError::InvalidControlType));
    assert_eq!(plan_manual_mode("AB", 5), Err(RequestError::InvalidControlType));
    assert_eq!(plan_manual_mode("", 5), Err(RequestError::InvalidControlType));
}

#[test]
fn control_types_and_letters() {
    assert_eq!(parse_control_type("A"), Some(ControlType::Rotation));
    assert_eq!(parse_control_type("B"), Some(ControlType::Suction));
    assert_eq!(parse_control_type("b"), None);
    assert_eq!(ControlType::Rotation.letter(), "A");
    assert_eq!(ControlType::Suction.letter(), "B");
}

#[test]
fn request_errors_status_and_text() {
    let cases = [
        (RequestError::ModeOutOfRange, 400u16, "type 必须在 1-10 之间"),
        (RequestError::IntensityOutOfRange, 400, "intensity 必须在 0-20 之间"),
        (RequestError::InvalidControlType, 400, "type 必须是 A 或 B"),
        (RequestError::CommandUnavailable, 500, "获取命令失败"),
    ];
    for (e, code, text) in cases.iter() {
        assert_eq!(e.status().code(), *code);
        assert_eq!(e.message(), *text);
        let r = request_error_reply(*e);
        assert_eq!(r.status.code(), *code);
        assert!(matches!(r.body, ReplyBody::Failure { ref error } if error == text));
    }
}

#[test]
fn status_codes() {
    assert_eq!(HttpStatus::Success.code(), 200);
    assert_eq!(HttpStatus::BadRequest.code(), 400);
    assert_eq!(HttpStatus::InternalServerError.code(), 500);
    assert_eq!(HttpStatus::ServiceUnavailable.code(), 503);
}

#[test]
fn classic_mode_success_reply() {
    let command = plan_classic_mode(1).unwrap();
    let r = classic_mode_reply(1, &command, SendOutcome::Delivered);
    assert_eq!(r.status, HttpStatus::Success);
    match r.body {
        ReplyBody::Classic { mode, command } => {
            assert_eq!(mode, 1);
            assert_eq!(command, "[c3, 7f, 25, 63, 61]");
        }
        _ => panic!("not a classic reply"),
    }
}

#[test]
fn manual_mode_success_reply() {
    let (control, command) = plan_manual_mode("B", 15).unwrap();
    let r = manual_mode_reply(control, 15, &command, SendOutcome::Delivered);
    assert_eq!(r.status.code(), 200);
    match r.body {
        ReplyBody::Manual { control, intensity, command } => {
            assert_eq!(control.letter(), "B");
            assert_eq!(intensity, 15);
            assert_eq!(command, "[c3, 7c, 27, 6d, 5e]");
        }
        _ => panic!("not a manual reply"),
    }
}

#[test]
fn stop_success_reply() {
    let command = get_stop_command();
    let r = stop_reply(&command, SendOutcome::Delivered);
    assert_eq!(r.status.code(), 200);
    assert!(matches!(r.body, ReplyBody::Stopped { ref data } if data == "[c3, 7e, 25, 62, 63]"));
}

#[test]
fn reply_without_device() {
    let r = stop_reply(&get_stop_command(), SendOutcome::NoDevice);
    assert_eq!(r.status.code(), 503);
    assert!(matches!(r.body, ReplyBody::Failure { ref error } if error == "设备未连接"));
}

#[test]
fn reply_when_a_call_failed() {
    let command = plan_classic_mode(3).unwrap();
    let r = classic_mode_reply(3, &command, SendOutcome::CallFailed("Device not found".to_string()));
    assert_eq!(r.status.code(), 500);
    assert!(matches!(r.body, ReplyBody::Failure { ref error } if error == "发送命令失败: Device not found"));
}

#[test]
fn reply_when_no_characteristic_accepts() {
    let (control, command) = plan_manual_mode("A", 0).unwrap();
    let r = manual_mode_reply(control, 0, &command, SendOutcome::NoWritableCharacteristic);
    assert_eq!(r.status.code(), 500);
    assert!(matches!(r.body, ReplyBody::Failure { ref error } if error == "发送命令失败: 未能找到可写入的特征值"));
}

#[test]
fn target_device_name() {
    assert!(is_target_name("LD-1"));
    assert!(!is_target_name("LD-2"));
    assert!(!is_target_name("ld-1"));
    assert!(!is_target_name("LD-1 "));
    assert!(!is_target_name(""));
}
