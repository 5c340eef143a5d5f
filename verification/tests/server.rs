use pisugar::cmds::{ButtonMode, Cmds, GetCmds};
use pisugar::config::PiSugarConfig;
use pisugar::model::Model;
use pisugar::server::{
    apply_config_command, classify_request, config_answer, config_command_result, get_response,
    help_response, hex_byte, invalid_response, request_parts, set_response, test_wake_message,
    ConfigSave, Request,
};

fn words(v: &[&str]) -> Vec<String> {
    v.iter().map(|s| s.to_string()).collect()
}

#[test]
fn requests_are_classified() {
    assert!(matches!(classify_request("help"), Request::Help));
    assert!(matches!(classify_request("helpme"), Request::Help));
    assert!(matches!(classify_request("get nothing"), Request::Invalid));
    assert!(matches!(classify_request("get battery"), Request::Command(Cmds::Get(GetCmds::Battery))));
}

#[test]
fn invalid_and_help_answers() {
    assert_eq!(invalid_response().entire_string(), "Invalid request.");
    assert_eq!(help_response("usage".to_string()).entire_string(), "usage");
}

#[test]
fn request_parts_split_on_spaces() {
    assert_eq!(request_parts("get button_shell single"), words(&["get", "button_shell", "single"]));
    assert_eq!(request_parts(" get  x"), words(&["", "get", "", "x"]));
}

#[test]
fn get_answers() {
    let parts = words(&["get", "battery"]);
    let r = get_response(&parts, GetCmds::Battery, Ok("90".to_string()));
    assert_eq!(r.entire_string(), "battery: 90");

    let parts = words(&["get", "button_enable", "double"]);
    let r = get_response(&parts, GetCmds::ButtonEnable { mode: ButtonMode::Double }, Ok("true".to_string()));
    assert_eq!(r.entire_string(), "button_enable: double true");

    let parts = words(&["get", "button_shell", "long"]);
    let r = get_response(&parts, GetCmds::ButtonShell { mode: ButtonMode::Long }, Ok("poweroff".to_string()));
    assert_eq!(r.entire_string(), "button_shell: long poweroff");

    let parts = words(&["get", "rtc_time"]);
    let r = get_response(&parts, GetCmds::RtcTime, Err("I2C error".to_string()));
    assert!(!r.is_ok());
    assert_eq!(r.entire_string(), "rtc_time: I2C error");
}

#[test]
fn set_answers() {
    let parts = words(&["rtc_web"]);
    assert_eq!(set_response(&parts, Ok(None)).entire_string(), "rtc_web: done");
    assert_eq!(set_response(&parts, Err("failed".to_string())).entire_string(), "rtc_web: failed");
    assert_eq!(
        test_wake_message(&"rtc_test_wake".to_string()),
        "rtc_test_wake: wakeup after 1 min 30 sec"
    );
}

#[test]
fn rtc_address_text() {
    assert_eq!(hex_byte(0x32), "0x32");
    assert_eq!(hex_byte(0x0a), "0x0a");
    assert_eq!(hex_byte(0xff), "0xff");
}

#[test]
fn answers_from_configuration() {
    let mut c = PiSugarConfig::default();
    let m = Model::PiSugar_3;
    assert_eq!(config_answer(&c, m, GetCmds::Model), Some("PiSugar 3".to_string()));
    assert_eq!(config_answer(&c, Model::PiSugar_2_2LEDs, GetCmds::BatteryLedAmount), Some("2".to_string()));
    assert_eq!(config_answer(&c, m, GetCmds::FullChargeDuration), Some("".to_string()));
    assert_eq!(config_answer(&c, m, GetCmds::AntiMistouch), Some("true".to_string()));
    assert_eq!(config_answer(&c, m, GetCmds::AutoPowerOn), Some("false".to_string()));
    assert_eq!(config_answer(&c, m, GetCmds::AuthUsername), Some("".to_string()));
    assert_eq!(config_answer(&c, m, GetCmds::Battery), None);
    assert_eq!(config_answer(&c, m, GetCmds::RtcAdjustPpm), None);
    c.auto_wake_repeat = 127;
    assert_eq!(config_answer(&c, m, GetCmds::AlarmRepeat), Some("127".to_string()));
}

#[test]
fn configuration_commands_read_back() {
    let mut c = PiSugarConfig::default();
    let m = Model::PiSugar_2_4LEDs;

    let cmd = Cmds::SetButtonEnable { mode: ButtonMode::Long, enable: pisugar::cmds::BoolValue(true) };
    assert_eq!(apply_config_command(&mut c, &cmd), Some(ConfigSave::Lenient));
    assert_eq!(
        config_answer(&c, m, GetCmds::ButtonEnable { mode: ButtonMode::Long }),
        Some("true".to_string())
    );
    assert_eq!(
        config_answer(&c, m, GetCmds::ButtonEnable { mode: ButtonMode::Single }),
        Some("false".to_string())
    );

    let cmd = Cmds::SetButtonShell { mode: ButtonMode::Single, shell: words(&["echo", "hi"]) };
    assert_eq!(apply_config_command(&mut c, &cmd), Some(ConfigSave::Lenient));
    assert_eq!(
        config_answer(&c, m, GetCmds::ButtonShell { mode: ButtonMode::Single }),
        Some("echo hi".to_string())
    );

    let cmd = Cmds::SetAuth { username: Some("admin".to_string()), password: Some("pw".to_string()) };
    assert_eq!(apply_config_command(&mut c, &cmd), Some(ConfigSave::Required));
    assert_eq!(config_answer(&c, m, GetCmds::AuthUsername), Some("admin".to_string()));
    let cmd = Cmds::SetAuth { username: Some("admin".to_string()), password: None };
    apply_config_command(&mut c, &cmd);
    assert_eq!(c.auth_user, None);
    assert_eq!(c.auth_password, None);

    let cmd = Cmds::SetFullChargeDuration { seconds: 600 };
    assert_eq!(apply_config_command(&mut c, &cmd), Some(ConfigSave::Required));
    assert_eq!(config_answer(&c, m, GetCmds::FullChargeDuration), Some("600".to_string()));

    let cmd = Cmds::SetSoftPoweroffShell { shell: words(&["shutdown", "now"]) };
    apply_config_command(&mut c, &cmd);
    assert_eq!(config_answer(&c, m, GetCmds::SoftPoweroffShell), Some("shutdown now".to_string()));
    let cmd = Cmds::SetSoftPoweroffShell { shell: vec![] };
    apply_config_command(&mut c, &cmd);
    assert_eq!(c.soft_poweroff_shell, None);

    let before = c.clone();
    assert_eq!(apply_config_command(&mut c, &Cmds::RtcWeb), None);
    assert_eq!(c.full_charge_duration, before.full_charge_duration);
}

#[test]
fn configuration_save_results() {
    assert_eq!(config_command_result(ConfigSave::Required, Err("disk".to_string())), Err("disk".to_string()));
    assert_eq!(config_command_result(ConfigSave::Lenient, Err("disk".to_string())), Ok(None));
    assert_eq!(config_command_result(ConfigSave::Required, Ok(())), Ok(None));
}
