use laser_utils::serial::at::{plan_at_command, AtCommands, AtNotice, SetCommands};
use laser_utils::serial::{
    at_app_key, at_dev_eui, at_join, at_send_msg, at_send_raw, at_version, encode_hex_payload,
    parse_response, DeviceError,
};

#[test]
fn fixed_commands() {
    assert_eq!(at_version(), "at+version\r\n");
    assert_eq!(at_join(), "at+join\r\n");
}

#[test]
fn set_dev_eui_then_ok_succeeds_with_text() {
    assert_eq!(
        at_dev_eui("0011223344556677"),
        "at+set_config=lora:dev_eui:0011223344556677\r\n"
    );
    assert_eq!(parse_response("OK\r\n"), Ok("OK".to_string()));
}

#[test]
fn set_app_key_command() {
    assert_eq!(
        at_app_key("00112233445566778899aabbccddeeff"),
        "at+set_config=lora:app_key:00112233445566778899aabbccddeeff\r\n"
    );
}

#[test]
fn send_commands() {
    assert_eq!(encode_hex_payload("hi"), "6869");
    assert_eq!(encode_hex_payload("\n\u{ff}"), "0AC3BF");
    assert_eq!(encode_hex_payload(""), "");
    assert_eq!(at_send_msg(1, "hi"), "at+send=lora:1:6869\r\n");
    assert_eq!(at_send_msg(255, "A"), "at+send=lora:255:41\r\n");
    assert_eq!(at_send_raw(0, "abc"), "at+send=lora:0:abc\r\n");
    assert_eq!(at_send_raw(42, "xyz"), "at+send=lora:42:xyz\r\n");
}

#[test]
fn responses_with_error_in_any_case_fail() {
    assert_eq!(
        parse_response("error\r\n"),
        Err(DeviceError::Protocol("error".to_string()))
    );
    assert_eq!(
        parse_response("ERROR\n"),
        Err(DeviceError::Protocol("ERROR".to_string()))
    );
    assert_eq!(
        parse_response("Error:123"),
        Err(DeviceError::Protocol("Error:123".to_string()))
    );
    assert!(parse_response("some eRRoR here").is_err());
}

#[test]
fn other_responses_succeed() {
    assert_eq!(parse_response("OK"), Ok("OK".to_string()));
    assert_eq!(
        parse_response("+VERSION:1.2.3\r\n"),
        Ok("+VERSION:1.2.3".to_string())
    );
    assert_eq!(parse_response("ERRO R"), Ok("ERRO R".to_string()));
    assert_eq!(parse_response(""), Ok(String::new()));
    assert_eq!(parse_response("\r\n\r\n"), Ok("\r\n".to_string()));
}

#[test]
fn plan_for_valid_dev_eui_keeps_it() {
    let cmd = AtCommands::SetProperty {
        command: SetCommands::DevEui { dev_eui: "0011223344556677".to_string() },
    };
    let plan = plan_at_command(&cmd);
    assert_eq!(plan.line, "at+set_config=lora:dev_eui:0011223344556677\r\n");
    assert_eq!(plan.notice, None);
}

#[test]
fn plan_for_missing_app_key_generates_one() {
    let cmd = AtCommands::SetProperty {
        command: SetCommands::AppKey { app_key: String::new() },
    };
    let plan = plan_at_command(&cmd);
    match plan.notice {
        Some(AtNotice::GeneratedAppKey(k)) => {
            assert_eq!(k.len(), 32);
            assert_eq!(plan.line, format!("at+set_config=lora:app_key:{}\r\n", k));
        }
        other => panic!("unexpected notice {:?}", other),
    }
}

#[test]
fn plan_for_raw_payload_warns_when_not_hex() {
    let cmd = AtCommands::Send { msg: "hello".to_string(), chn: 2, raw: true };
    let plan = plan_at_command(&cmd);
    assert_eq!(plan.line, "at+send=lora:2:hello\r\n");
    assert_eq!(plan.notice, Some(AtNotice::PayloadNotHex));
    let cmd = AtCommands::Send { msg: "CAFE".to_string(), chn: 2, raw: true };
    assert_eq!(plan_at_command(&cmd).notice, None);
    let cmd = AtCommands::Send { msg: "hello".to_string(), chn: 1, raw: false };
    let plan = plan_at_command(&cmd);
    assert_eq!(plan.line, "at+send=lora:1:68656C6C6F\r\n");
    assert_eq!(plan.notice, None);
    assert_eq!(plan_at_command(&AtCommands::Version).line, "at+version\r\n");
    assert_eq!(plan_at_command(&AtCommands::Join).line, "at+join\r\n");
}
