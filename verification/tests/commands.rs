use pisugar::cmd_parse::command_args;
use pisugar::cmds::{BoolArg, BoolValue, ButtonMode, Cmds, CmdsError, GetCmds, OffsetTime, Response};

fn parse(s: &str) -> Result<Cmds, CmdsError> {
    Cmds::from_str(s)
}

fn words(v: &[&str]) -> Vec<String> {
    v.iter().map(|s| s.to_string()).collect()
}

#[test]
fn test_cmds_get_version() {
    assert_eq!(parse("get version"), Ok(Cmds::Get(GetCmds::Version)));
}

#[test]
fn test_cmds_get_model() {
    assert_eq!(parse("get model"), Ok(Cmds::Get(GetCmds::Model)));
}

#[test]
fn test_cmds_get_firmware_version() {
    assert_eq!(parse("get firmware_version"), Ok(Cmds::Get(GetCmds::FirmwareVersion)));
}

#[test]
fn test_cmds_get_button_enable() {
    assert_eq!(
        parse("get button_enable single"),
        Ok(Cmds::Get(GetCmds::ButtonEnable { mode: ButtonMode::Single }))
    );
}

#[test]
fn test_cmds_get_button_shell() {
    assert_eq!(
        parse("get button_shell long"),
        Ok(Cmds::Get(GetCmds::ButtonShell { mode: ButtonMode::Long }))
    );
}

#[test]
fn test_cmds_charging_range() {
    assert_eq!(
        parse("set_battery_charging_range 30.0,80.0"),
        Ok(Cmds::SetBatteryChargingRange { range: words(&["30.0", "80.0"]) })
    );
}

#[test]
fn test_cmds_battery_output_true() {
    assert_eq!(
        parse("set_battery_output true"),
        Ok(Cmds::SetBatteryOutput(BoolArg { enable: BoolValue(true) }))
    );
}

#[test]
fn test_cmds_battery_output_false() {
    assert_eq!(
        parse("set_battery_output false"),
        Ok(Cmds::SetBatteryOutput(BoolArg { enable: BoolValue(false) }))
    );
}

#[test]
fn test_cmds_button_enable() {
    assert_eq!(
        parse("set_button_enable single 1"),
        Ok(Cmds::SetButtonEnable { mode: ButtonMode::Single, enable: BoolValue(true) })
    );
}

#[test]
fn test_cmds_button_shell() {
    assert_eq!(
        parse("set_button_shell single echo hello"),
        Ok(Cmds::SetButtonShell { mode: ButtonMode::Single, shell: words(&["echo", "hello"]) })
    );
}

#[test]
fn test_cmds_soft_poweroff_shell_dash() {
    assert_eq!(
        parse("set_soft_poweroff_shell shutdown -a"),
        Ok(Cmds::SetSoftPoweroffShell { shell: words(&["shutdown", "-a"]) })
    );
}

#[test]
fn test_cmds_soft_poweroff_shell_quoted() {
    assert_eq!(
        parse("set_soft_poweroff_shell bash \"shutdown -a\""),
        Ok(Cmds::SetSoftPoweroffShell { shell: words(&["bash", "shutdown -a"]) })
    );
}

#[test]
fn test_help() {
    let h = parse("help");
    assert!(format!("{:?}", h).contains("help"));
}

#[test]
fn test_help_get() {
    let h = parse("help get");
    println!("{:?}", h);
    assert!(format!("{:?}", h).contains("version"));
}

#[test]
fn help_topics() {
    match parse("help") {
        Err(CmdsError::Help(words)) => {
            assert_eq!(words.len(), 28);
            assert_eq!(words[0], "get");
            assert_eq!(words[27], "help");
        }
        other => panic!("{:?}", other),
    }
    match parse("help get") {
        Err(CmdsError::Help(words)) => {
            assert_eq!(words.len(), 37);
            assert_eq!(words[0], "version");
            assert_eq!(words[36], "help");
        }
        other => panic!("{:?}", other),
    }
    assert_eq!(parse("help set_auth"), Err(CmdsError::Help(vec![])));
    assert_eq!(parse("help get battery"), Err(CmdsError::Help(vec![])));
    assert_eq!(parse("help nothing"), Err(CmdsError::Invalid));
    assert_eq!(parse("help get nothing"), Err(CmdsError::Invalid));
    assert_eq!(parse("get nothing"), Err(CmdsError::Invalid));
    assert_eq!(parse("'unclosed"), Err(CmdsError::Invalid));
}

#[test]
fn parser_argument_lists() {
    assert_eq!(command_args("get battery"), Some(words(&["get", "battery"])));
    assert_eq!(
        command_args("set_soft_poweroff_shell shutdown -a"),
        Some(words(&["set_soft_poweroff_shell", "--", "shutdown", "-a"]))
    );
    assert_eq!(command_args("-x get"), Some(words(&["-x", "get"])));
    assert_eq!(command_args("help 'get"), None);
}

#[test]
fn unknown_and_malformed_commands() {
    assert!(parse("").is_err());
    assert!(parse("   ").is_err());
    assert!(parse("get").is_err());
    assert!(parse("get nothing").is_err());
    assert!(parse("get version extra").is_err());
    assert!(parse("get -x").is_err());
    assert!(parse("rtc_web now").is_err());
    assert!(parse("set_button_enable triple 1").is_err());
    assert!(parse("set_battery_charging_range 30,abc").is_err());
    assert!(parse("set_battery_charging_range 30,").is_err());
    assert!(parse("set_full_charge_duration -1").is_err());
    assert!(parse("set_rtc_addr 256").is_err());
    assert!(parse("set_button_shell single \"unclosed").is_err());
}

#[test]
fn numeric_arguments() {
    assert_eq!(parse("set_full_charge_duration 300"), Ok(Cmds::SetFullChargeDuration { seconds: 300 }));
    assert_eq!(parse("set_full_charge_duration +7"), Ok(Cmds::SetFullChargeDuration { seconds: 7 }));
    assert_eq!(parse("set_rtc_addr 104"), Ok(Cmds::SetRtcAddr { addr: 104 }));
    assert_eq!(parse("set_rtc_addr -0"), Ok(Cmds::SetRtcAddr { addr: 0 }));
    assert_eq!(parse("rtc_adjust_ppm -10.5"), Ok(Cmds::RtcAdjustPpm { ppm: "-10.5".to_string() }));
    assert_eq!(parse("set_safe_shutdown_level 5"), Ok(Cmds::SetSafeShutdownLevel { level: "5".to_string() }));
    assert_eq!(parse("set_safe_shutdown_delay 1e1"), Ok(Cmds::SetSafeShutdownDelay { delay: "1e1".to_string() }));
    assert_eq!(parse("set_battery_charging_range"), Ok(Cmds::SetBatteryChargingRange { range: vec![] }));
}

#[test]
fn alarm_set_command() {
    assert_eq!(
        parse("rtc_alarm_set 2020-01-01T08:30:00+08:00 127"),
        Ok(Cmds::RtcAlarmSet { datetime: OffsetTime { timestamp: 1577838600, offset: 28800 }, weekdays: 127 })
    );
    assert!(parse("rtc_alarm_set tomorrow 127").is_err());
}

#[test]
fn no_argument_commands() {
    assert_eq!(parse("rtc_clear_flag"), Ok(Cmds::RtcClearFlag));
    assert_eq!(parse("rtc_pi2rtc"), Ok(Cmds::RtcPi2rtc));
    assert_eq!(parse("rtc_rtc2pi"), Ok(Cmds::RtcRtc2pi));
    assert_eq!(parse("rtc_web"), Ok(Cmds::RtcWeb));
    assert_eq!(parse("rtc_alarm_disable"), Ok(Cmds::RtcAlarmDisable));
    assert_eq!(parse("rtc_test_wake"), Ok(Cmds::RtcTestWake));
    assert_eq!(parse("force_shutdown"), Ok(Cmds::ForceShutdown));
}

#[test]
fn auth_command() {
    assert_eq!(
        parse("set_auth admin secret"),
        Ok(Cmds::SetAuth { username: Some("admin".to_string()), password: Some("secret".to_string()) })
    );
    assert_eq!(parse("set_auth"), Ok(Cmds::SetAuth { username: None, password: None }));
    assert!(parse("set_auth a b c").is_err());
}

#[test]
fn command_word_is_a_file_stem() {
    assert_eq!(parse("/usr/bin/get.sh version"), Ok(Cmds::Get(GetCmds::Version)));
    // no file stem: the next word names the command
    assert_eq!(parse("'' get version"), Ok(Cmds::Get(GetCmds::Version)));
}

#[test]
fn bool_values() {
    assert_eq!(BoolValue::from("true".to_string()), BoolValue(true));
    assert_eq!(BoolValue::from("false".to_string()), BoolValue(false));
    assert_eq!(BoolValue::from("0".to_string()), BoolValue(false));
    assert_eq!(BoolValue::from("42".to_string()), BoolValue(true));
    assert_eq!(BoolValue::from("4294967296".to_string()), BoolValue(false));
    assert_eq!(BoolValue::from("yes".to_string()), BoolValue(false));
    assert!(BoolArg { enable: BoolValue(true) }.value());
    assert!(!BoolArg { enable: BoolValue(false) }.value());
}

#[test]
fn button_mode_names() {
    assert_eq!(ButtonMode::Double.to_str(), "double");
    assert_eq!(ButtonMode::from_str("long"), Ok(ButtonMode::Long));
    assert_eq!(ButtonMode::from_str("Long"), Err(()));
    assert_eq!(ButtonMode::value_variants(), vec![ButtonMode::Single, ButtonMode::Double, ButtonMode::Long]);
}

#[test]
fn response_strings() {
    let r = Response { cmd: Some("battery".to_string()), extras: vec![], result: Ok(Some("87.5".to_string())) };
    assert!(r.is_ok());
    assert_eq!(r.result_string(), "87.5");
    assert_eq!(r.entire_string(), "battery: 87.5");
    assert_eq!(r.to_string(), "battery: 87.5");

    let r = Response { cmd: Some("set_auth".to_string()), extras: vec![], result: Ok(None) };
    assert_eq!(r.entire_string(), "set_auth: done");

    let r = Response {
        cmd: Some("button_shell".to_string()),
        extras: vec!["single".to_string()],
        result: Ok(Some("echo hi".to_string())),
    };
    assert_eq!(r.extra_and_result_string(), "single echo hi");
    assert_eq!(r.entire_string(), "button_shell: single echo hi");

    let r = Response { cmd: None, extras: vec![], result: Err("Invalid request.".to_string()) };
    assert!(!r.is_ok());
    assert_eq!(r.entire_string(), "Invalid request.");
}

#[test]
fn every_query_word() {
    let queries = [
        ("version", GetCmds::Version),
        ("model", GetCmds::Model),
        ("firmware_version", GetCmds::FirmwareVersion),
        ("battery", GetCmds::Battery),
        ("battery_i", GetCmds::BatteryI),
        ("battery_v", GetCmds::BatteryV),
        ("battery_keep_input", GetCmds::BatteryKeepInput),
        ("battery_led_amount", GetCmds::BatteryLedAmount),
        ("battery_power_plugged", GetCmds::BatteryPowerPlugged),
        ("battery_allow_charging", GetCmds::BatteryAllowCharging),
        ("battery_charging_range", GetCmds::BatteryChargingRange),
        ("battery_charging", GetCmds::BatteryCharging),
        ("battery_input_protect_enabled", GetCmds::BatteryInputProtectEnabled),
        ("battery_output_enabled", GetCmds::BatteryOutputEnabled),
        ("full_charge_duration", GetCmds::FullChargeDuration),
        ("system_time", GetCmds::SystemTime),
        ("rtc_addr", GetCmds::RtcAddr),
        ("rtc_time", GetCmds::RtcTime),
        ("rtc_time_list", GetCmds::RtcTimeList),
        ("rtc_alarm_flag", GetCmds::RtcAlarmFlag),
        ("rtc_alarm_time", GetCmds::RtcAlarmTime),
        ("rtc_alarm_time_list", GetCmds::RtcAlarmTimeList),
        ("rtc_alarm_enabled", GetCmds::RtcAlarmEnabled),
        ("rtc_adjust_ppm", GetCmds::RtcAdjustPpm),
        ("alarm_repeat", GetCmds::AlarmRepeat),
        ("safe_shutdown_level", GetCmds::SafeShutdownLevel),
        ("safe_shutdown_delay", GetCmds::SafeShutdownDelay),
        ("auto_power_on", GetCmds::AutoPowerOn),
        ("auth_username", GetCmds::AuthUsername),
        ("anti_mistouch", GetCmds::AntiMistouch),
        ("soft_poweroff", GetCmds::SoftPoweroff),
        ("soft_poweroff_shell", GetCmds::SoftPoweroffShell),
        ("temperature", GetCmds::Temperature),
        ("input_protect", GetCmds::InputProtect),
    ];
    for (word, g) in queries {
        assert_eq!(parse(&format!("get {}", word)), Ok(Cmds::Get(g)));
        assert!(parse(&format!("get {} extra", word)).is_err());
    }
    assert_eq!(
        parse("get button_enable double"),
        Ok(Cmds::Get(GetCmds::ButtonEnable { mode: ButtonMode::Double }))
    );
    assert!(parse("get button_shell").is_err());
    assert!(parse("get battery_x").is_err());
}

#[test]
fn every_switch_command() {
    let on = BoolArg { enable: BoolValue(true) };
    let off = BoolArg { enable: BoolValue(false) };
    assert_eq!(parse("set_battery_keep_input true"), Ok(Cmds::SetBatteryKeepInput(on)));
    assert_eq!(parse("set_battery_input_protect 0"), Ok(Cmds::SetBatteryInputProtect(off)));
    assert_eq!(parse("set_battery_output 7"), Ok(Cmds::SetBatteryOutput(on)));
    assert_eq!(parse("set_allow_charging false"), Ok(Cmds::SetAllowCharging(off)));
    assert_eq!(parse("set_auto_power_on true"), Ok(Cmds::SetAutoPowerOn(on)));
    assert_eq!(parse("set_anti_mistouch maybe"), Ok(Cmds::SetAntiMistouch(off)));
    assert_eq!(parse("set_soft_poweroff 1"), Ok(Cmds::SetSoftPoweroff(on)));
    assert_eq!(parse("set_input_protect true"), Ok(Cmds::SetInputProtect(on)));
    assert!(parse("set_input_protect").is_err());
    assert!(parse("set_input_protect true false").is_err());
}
