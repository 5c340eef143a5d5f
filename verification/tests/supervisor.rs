use pisugar::supervisor::{first_poll_step, next_poll_step, soft_poweroff_watched, PollStep};
use pisugar::supervisor::pisugar3_poll_due;
use pisugar::config::PiSugarConfig;
use pisugar::error::Error;
use pisugar::model::Model;
use pisugar::supervisor::{
    alarm_allowed, battery_i2c_addr, charge_step, charging_range_kept, config_start,
    low_battery_shell, poll_check_due, rtc_charging_action, rtc_sync_due, toggle_auto_power_on,
    ChargeStep, ConfigStart, CoreAction, FullMark, Span,
};

fn span(secs: u64, nanos: u32) -> Span {
    Span { secs, nanos }
}

#[test]
fn battery_addresses() {
    let mut c = PiSugarConfig::default();
    assert_eq!(battery_i2c_addr(Model::PiSugar_3, &c), 0x57);
    assert_eq!(battery_i2c_addr(Model::PiSugar_2_Pro, &c), 0x75);
    c.i2c_addr = Some(0x58);
    assert_eq!(battery_i2c_addr(Model::PiSugar_3, &c), 0x58);
    assert_eq!(battery_i2c_addr(Model::PiSugar_2_4LEDs, &c), 0x75);
}

#[test]
fn alarm_conflicts_with_auto_power_on() {
    let mut c = PiSugarConfig::default();
    assert!(alarm_allowed(&c).is_ok());
    let plan = toggle_auto_power_on(Model::PiSugar_3, &mut c, true);
    assert_eq!(plan, vec![CoreAction::BatteryPowerRestore(true)]);
    assert_eq!(
        alarm_allowed(&c),
        Err(Error::Other("auto_power_on is in conflict with alarm function".to_string()))
    );
    toggle_auto_power_on(Model::PiSugar_3, &mut c, false);
    assert!(alarm_allowed(&c).is_ok());
}

#[test]
fn auto_power_on_plans() {
    let mut c = PiSugarConfig::default();
    assert_eq!(
        toggle_auto_power_on(Model::PiSugar_2_Pro, &mut c, true),
        vec![CoreAction::RtcFrequencyAlarm(true), CoreAction::BatteryLightLoadShutdown(false)]
    );
    assert_eq!(c.auto_power_on, Some(true));
    c.auto_wake_time = Some(1_600_000_000);
    c.auto_wake_repeat = 0x7f;
    assert_eq!(
        toggle_auto_power_on(Model::PiSugar_2_4LEDs, &mut c, false),
        vec![
            CoreAction::RtcFrequencyAlarm(false),
            CoreAction::RtcSetAlarm { time: 1_600_000_000, weekday_repeat: 0x7f },
            CoreAction::BatteryLightLoadShutdown(true),
        ]
    );
}

#[test]
fn periodic_checks() {
    assert!(!poll_check_due(span(0, 999_999_999)));
    assert!(poll_check_due(span(1, 0)));
    let mut c = PiSugarConfig::default();
    assert!(!rtc_sync_due(&c, span(100, 0)));
    c.auto_rtc_sync = Some(true);
    assert!(!rtc_sync_due(&c, span(9, 999_999_999)));
    assert!(rtc_sync_due(&c, span(10, 0)));
    assert!(charging_range_kept(Model::PiSugar_2_2LEDs, true));
    assert!(!charging_range_kept(Model::PiSugar_2_2LEDs, false));
    assert!(!charging_range_kept(Model::PiSugar_2_4LEDs, true));
    assert!(!charging_range_kept(Model::PiSugar_3, true));
}

#[test]
fn charging_range_steps() {
    // below the range with charging stopped: charge again, forget full
    assert_eq!(
        charge_step(Some(span(10, 0)), true, false, false, false, None),
        ChargeStep { enable_charging: true, disable_charging: false, full_mark: FullMark::Clear }
    );
    // at the end while charging, first time: mark full now
    assert_eq!(
        charge_step(None, false, true, false, true, None),
        ChargeStep { enable_charging: false, disable_charging: false, full_mark: FullMark::SetNow }
    );
    // full for exactly the duration: keep charging
    assert_eq!(
        charge_step(Some(span(300, 0)), false, true, false, true, None),
        ChargeStep { enable_charging: false, disable_charging: false, full_mark: FullMark::Keep }
    );
    // full for longer than the duration: stop
    assert_eq!(
        charge_step(Some(span(300, 1)), false, true, false, true, None),
        ChargeStep { enable_charging: false, disable_charging: true, full_mark: FullMark::Keep }
    );
    assert_eq!(
        charge_step(Some(span(61, 0)), false, false, true, false, Some(60)),
        ChargeStep { enable_charging: false, disable_charging: true, full_mark: FullMark::Keep }
    );
    // in the range: nothing to do
    assert_eq!(
        charge_step(None, false, false, false, true, None),
        ChargeStep { enable_charging: false, disable_charging: false, full_mark: FullMark::Keep }
    );
}

#[test]
fn rtc_battery_charging() {
    assert_eq!(rtc_charging_action(Some(true), Some(true)), Some(true));
    assert_eq!(rtc_charging_action(Some(false), Some(true)), Some(false));
    assert_eq!(rtc_charging_action(None, Some(true)), Some(false));
    assert_eq!(rtc_charging_action(None, None), None);
}

#[test]
fn shutdown_script_and_start() {
    let mut c = PiSugarConfig::default();
    assert_eq!(low_battery_shell(&c), "shutdown --poweroff 0");
    c.soft_poweroff_shell = Some("poweroff".to_string());
    assert_eq!(low_battery_shell(&c), "poweroff");
    assert_eq!(config_start(true, true, true), Err(Error::Other("Not a file".to_string())));
    assert_eq!(config_start(false, true, false), Ok(ConfigStart::Loaded));
    assert_eq!(config_start(false, false, true), Ok(ConfigStart::Recover));
    assert_eq!(config_start(false, false, false), Err(Error::Other("Not recoverable".to_string())));
}

#[test]
fn shell_commands() {
    assert_eq!(
        pisugar::supervisor::notify_shutdown_soon("Low battery"),
        "/usr/bin/wall -n 'Low battery'"
    );
    assert_eq!(
        pisugar::supervisor::set_date_command(2021, 3, 4, 5, 6, 7),
        "/bin/date -s \"2021-3-4 5:6:7\""
    );
}

#[test]
fn wake_up_test_times() {
    // 2021-03-04T05:06:07Z and 90 seconds later
    let (now, alarm) = pisugar::supervisor::test_wake_plan(1614834367).unwrap();
    assert_eq!(now.0, [0x07, 0x06, 0x05, 0x04, 0x04, 0x03, 0x21]);
    assert_eq!(alarm.0, [0x37, 0x07, 0x05, 0x04, 0x04, 0x03, 0x21]);
    assert_eq!(pisugar::supervisor::TEST_WAKE_REPEAT, 0x7f);
}

#[test]
fn pisugar3_poll_throttle() {
    assert!(!pisugar3_poll_due(None));
    assert!(!pisugar3_poll_due(Some(span(0, 499_999_999))));
    assert!(pisugar3_poll_due(Some(span(0, 500_000_000))));
    assert!(pisugar3_poll_due(Some(span(2, 0))));
}

/// Runs the poll steps from `ready`, with the outcome of each step from `ok`.
fn run(ready: bool, ok: impl Fn(PollStep) -> bool) -> (Vec<PollStep>, bool) {
    let mut ready = ready;
    let mut steps = Vec::new();
    let mut step = Some(first_poll_step(ready));
    while let Some(s) = step {
        steps.push(s);
        let (r, next) = next_poll_step(ready, s, ok(s));
        ready = r;
        step = next;
    }
    (steps, ready)
}

#[test]
fn poll_sets_up_chips_until_ready() {
    let (steps, ready) = run(false, |_| true);
    assert_eq!(steps, vec![PollStep::InitBattery, PollStep::InitRtc, PollStep::PollBattery]);
    assert!(ready);
    let (steps, ready) = run(ready, |_| true);
    assert_eq!(steps, vec![PollStep::PollBattery]);
    assert!(ready);
    let (steps, ready) = run(false, |s| s != PollStep::InitBattery);
    assert_eq!(steps, vec![PollStep::InitBattery]);
    assert!(!ready);
    let (steps, ready) = run(false, |s| s != PollStep::InitRtc);
    assert_eq!(steps, vec![PollStep::InitBattery, PollStep::InitRtc]);
    assert!(!ready);
    let (steps, ready) = run(false, |s| s != PollStep::PollBattery);
    assert_eq!(steps, vec![PollStep::InitBattery, PollStep::InitRtc, PollStep::PollBattery]);
    assert!(ready);
}

#[test]
fn soft_poweroff_read_only_when_switched_on() {
    let mut c = PiSugarConfig::default();
    assert!(!soft_poweroff_watched(&c));
    c.soft_poweroff = Some(false);
    assert!(!soft_poweroff_watched(&c));
    c.soft_poweroff = Some(true);
    assert!(soft_poweroff_watched(&c));
}
