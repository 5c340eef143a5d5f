//! The decisions of the PiSugar core between its chip operations: which
//! address the battery chip answers on, what turning the automatic power on
//! takes, when the periodic checks are due, and how the charging range and
//! the RTC battery are kept.

use vstd::prelude::*;

use crate::clock::utc_fields;
use crate::config::PiSugarConfig;
use crate::error::Error;
use crate::model::{led_amount_of, Model};
use crate::rtc::{raw_of_fields, RTCRawTime};
use crate::text::{
    append_chars, append_decimal, append_str, chars_of, decimal, i64_to_string, signed_decimal,
    string_from_chars,
};

verus! {

/// Battery chip address of the PiSugar 2 models.
pub const I2C_ADDR_BAT: u16 = 0x75;

/// Default address of the PiSugar 3 chip.
pub const I2C_ADDR_P3: u16 = 0x57;

/// Keep charging this long after the battery is full, seconds (5 min).
pub const BAT_FULL_CHARGE_DURATION: u64 = 300;

/// The address the battery chip answers on: the configured one (or 0x57) on
/// a PiSugar 3, 0x75 on the others.
pub fn battery_i2c_addr(model: Model, config: &PiSugarConfig) -> (a: u16)
    ensures
        a == (if model == Model::PiSugar_3 {
            match config.i2c_addr {
                Some(x) => x,
                None => I2C_ADDR_P3,
            }
        } else {
            I2C_ADDR_BAT
        }),
{
    match model {
        Model::PiSugar_3 => match config.i2c_addr {
            Some(x) => x,
            None => I2C_ADDR_P3,
        },
        _ => I2C_ADDR_BAT,
    }
}

/// The alarm clock is refused while the automatic power on is turned on.
pub open spec fn alarm_refused(c: PiSugarConfig) -> bool {
    c.auto_power_on == Some(true)
}

/// The alarm clock may be set only while the automatic power on is not
/// turned on.
pub fn alarm_allowed(config: &PiSugarConfig) -> (r: Result<(), Error>)
    ensures
        alarm_refused(*config) <==> r is Err,
        r matches Err(e) ==> (e matches Error::Other(m) && m@
            == "auto_power_on is in conflict with alarm function"@),
{
    if config.auto_power_on == Some(true) {
        return Err(Error::Other(String::from_str("auto_power_on is in conflict with alarm function")));
    }
    Ok(())
}

/// A chip operation of the core.
#[derive(Debug, PartialEq, Eq, Clone, Copy, Structural)]
pub enum CoreAction {
    /// Turn the battery chip's power restore on or off (PiSugar 3).
    BatteryPowerRestore(bool),
    /// Turn the RTC frequency alarm on or off (PiSugar 2 power restore).
    RtcFrequencyAlarm(bool),
    /// Set the RTC alarm to a Unix time, with its weekday repeat.
    RtcSetAlarm { time: i64, weekday_repeat: u8 },
    /// Turn the battery chip's light load shutdown on or off.
    BatteryLightLoadShutdown(bool),
}

/// The chip operations that turn the automatic power on on or off, in
/// order: on a PiSugar 3 the chip's power restore; on the others the RTC
/// frequency alarm, the saved alarm again when turning off, and the light
/// load shutdown.
pub open spec fn auto_power_on_actions(model: Model, config: PiSugarConfig, enable: bool) -> Seq<
    CoreAction,
> {
    if model == Model::PiSugar_3 {
        seq![CoreAction::BatteryPowerRestore(enable)]
    } else if enable {
        seq![CoreAction::RtcFrequencyAlarm(true), CoreAction::BatteryLightLoadShutdown(false)]
    } else {
        seq![CoreAction::RtcFrequencyAlarm(false)] + match config.auto_wake_time {
            Some(t) => seq![CoreAction::RtcSetAlarm { time: t, weekday_repeat: config.auto_wake_repeat }],
            None => Seq::empty(),
        } + seq![CoreAction::BatteryLightLoadShutdown(true)]
    }
}

/// Record the automatic power on setting and give the chip operations that
/// follow the save of the configuration (see `auto_power_on_actions`).
pub fn toggle_auto_power_on(model: Model, config: &mut PiSugarConfig, auto_power_on: bool) -> (r: Vec<
    CoreAction,
>)
    ensures
        *final(config) == (PiSugarConfig { auto_power_on: Some(auto_power_on), ..*old(config) }),
        r@ == auto_power_on_actions(model, *final(config), auto_power_on),
{
    config.auto_power_on = Some(auto_power_on);
    let mut r: Vec<CoreAction> = Vec::new();
    match model {
        Model::PiSugar_3 => {
            r.push(CoreAction::BatteryPowerRestore(auto_power_on));
        },
        _ => {
            if auto_power_on {
                r.push(CoreAction::RtcFrequencyAlarm(true));
                r.push(CoreAction::BatteryLightLoadShutdown(false));
            } else {
                r.push(CoreAction::RtcFrequencyAlarm(false));
                if let Some(t) = config.auto_wake_time {
                    r.push(
                        CoreAction::RtcSetAlarm { time: t, weekday_repeat: config.auto_wake_repeat },
                    );
                }
                r.push(CoreAction::BatteryLightLoadShutdown(true));
            }
        },
    }
    assert(r@ =~= auto_power_on_actions(model, *config, auto_power_on));
    r
}

/// A span of time: whole seconds and the nanoseconds beyond them.
#[derive(Debug, PartialEq, Eq, Clone, Copy, Structural)]
pub struct Span {
    pub secs: u64,
    pub nanos: u32,
}

pub open spec fn span_valid(s: Span) -> bool {
    s.nanos < 1_000_000_000
}

/// The span in nanoseconds.
pub open spec fn span_nanos(s: Span) -> int {
    s.secs * 1_000_000_000 + s.nanos
}

/// The slower checks of a poll run at most once a second.
pub fn poll_check_due(since_last: Span) -> (r: bool)
    requires
        span_valid(since_last),
    ensures
        r == (span_nanos(since_last) >= 1_000_000_000),
{
    since_last.secs >= 1
}

/// The RTC is set from the web every 10 seconds while automatic sync is on.
pub fn rtc_sync_due(config: &PiSugarConfig, since_last: Span) -> (r: bool)
    requires
        span_valid(since_last),
    ensures
        r == (config.auto_rtc_sync == Some(true) && span_nanos(since_last) >= 10_000_000_000),
{
    config.auto_rtc_sync == Some(true) && since_last.secs >= 10
}

/// The charging range is kept by the core only on a PiSugar 2 with 2 LEDs
/// that has a range configured.
pub fn charging_range_kept(model: Model, has_range: bool) -> (r: bool)
    ensures
        r == (model != Model::PiSugar_3 && led_amount_of(model) == 2 && has_range),
{
    !matches!(model, Model::PiSugar_3) && model.led_amount() == 2 && has_range
}

/// What becomes of the moment the battery was found full.
#[derive(Debug, PartialEq, Eq, Clone, Copy, Structural)]
pub enum FullMark {
    /// It stays as it was.
    Keep,
    /// It is forgotten.
    Clear,
    /// It is set to now.
    SetNow,
}

/// One step of keeping the battery level in the charging range.
#[derive(Debug, PartialEq, Eq, Clone, Copy, Structural)]
pub struct ChargeStep {
    /// Allow charging (the level fell below the range).
    pub enable_charging: bool,
    /// Stop charging (full for longer than the full charge duration).
    pub disable_charging: bool,
    pub full_mark: FullMark,
}

/// The span is longer than `secs` whole seconds.
pub open spec fn longer_than(s: Span, secs: u64) -> bool {
    span_nanos(s) > secs * 1_000_000_000
}

/// Keep the battery in its charging range, given how the level compares
/// with the range (`below_begin`: under its start, `reached_end`: at least
/// its end, `nearly_full`: at least 99.9), whether charging is allowed, and
/// how long ago the battery was found full (`None`: not found full).
///
/// Below the range with charging stopped, charging is allowed and the full
/// moment forgotten. At the end of the range while charging, or nearly
/// full, the battery is marked full now unless it already was, and charging
/// stops once it has been full longer than the full charge duration (5
/// minutes unless configured).
pub open spec fn charge_step_of(
    full_since: Option<Span>,
    below_begin: bool,
    reached_end: bool,
    nearly_full: bool,
    allow_charging: bool,
    full_charge_duration: Option<u64>,
) -> ChargeStep {
    let enable = below_begin && !allow_charging;
    let full = if enable {
        None
    } else {
        full_since
    };
    let at_top = (reached_end && allow_charging) || nearly_full;
    let delay = match full_charge_duration {
        Some(d) => d,
        None => BAT_FULL_CHARGE_DURATION,
    };
    ChargeStep {
        enable_charging: enable,
        disable_charging: at_top && (full matches Some(s) && longer_than(s, delay)),
        full_mark: if at_top && full is None {
            FullMark::SetNow
        } else if enable {
            FullMark::Clear
        } else {
            FullMark::Keep
        },
    }
}

/// One step of the charging range (see `charge_step_of`).
pub fn charge_step(
    full_since: Option<Span>,
    below_begin: bool,
    reached_end: bool,
    nearly_full: bool,
    allow_charging: bool,
    full_charge_duration: Option<u64>,
) -> (r: ChargeStep)
    requires
        full_since matches Some(s) ==> span_valid(s),
    ensures
        r == charge_step_of(
            full_since,
            below_begin,
            reached_end,
            nearly_full,
            allow_charging,
            full_charge_duration,
        ),
{
    let enable = below_begin && !allow_charging;
    let full = if enable {
        None
    } else {
        full_since
    };
    let at_top = (reached_end && allow_charging) || nearly_full;
    let delay = match full_charge_duration {
        Some(d) => d,
        None => BAT_FULL_CHARGE_DURATION,
    };
    let disable = match full {
        Some(s) => at_top && (s.secs > delay || (s.secs == delay && s.nanos > 0)),
        None => false,
    };
    proof {
        if let Some(s) = full {
            assert(longer_than(s, delay) == (s.secs > delay || (s.secs == delay && s.nanos > 0)))
                by (nonlinear_arith)
                requires
                    s.nanos < 1_000_000_000,
            ;
        }
    }
    let mark = if at_top && full.is_none() {
        FullMark::SetNow
    } else if enable {
        FullMark::Clear
    } else {
        FullMark::Keep
    };
    ChargeStep { enable_charging: enable, disable_charging: disable, full_mark: mark }
}

/// The RTC backup battery: charge it when its low flag reads set, otherwise
/// stop when its high flag reads set (a failed read counts as not set; the
/// high flag only matters when the low flag is not set).
pub fn rtc_charging_action(low_flag: Option<bool>, high_flag: Option<bool>) -> (r: Option<bool>)
    ensures
        r == (if low_flag == Some(true) {
            Some(true)
        } else if high_flag == Some(true) {
            Some(false)
        } else {
            None
        }),
{
    if low_flag == Some(true) {
        Some(true)
    } else if high_flag == Some(true) {
        Some(false)
    } else {
        None
    }
}

/// The script run to power off at low battery: the soft poweroff script,
/// or `shutdown --poweroff 0`.
pub fn low_battery_shell(config: &PiSugarConfig) -> (s: String)
    ensures
        s@ == match config.soft_poweroff_shell {
            Some(v) => v@,
            None => "shutdown --poweroff 0"@,
        },
{
    match &config.soft_poweroff_shell {
        Some(v) => v.clone(),
        None => String::from_str("shutdown --poweroff 0"),
    }
}

/// How the core starts from a configuration file.
#[derive(Debug, PartialEq, Eq, Clone, Copy, Structural)]
pub enum ConfigStart {
    /// Use the configuration that was loaded.
    Loaded,
    /// Start from the defaults and save them to the file.
    Recover,
}

/// Starting from a configuration file: a directory is refused; a file that
/// loaded is used; otherwise the defaults are saved over it when recovery
/// is asked for, and the start is refused when it is not.
pub fn config_start(is_dir: bool, loaded: bool, recover: bool) -> (r: Result<ConfigStart, Error>)
    ensures
        is_dir ==> (r matches Err(Error::Other(m)) && m@ == "Not a file"@),
        !is_dir && loaded ==> r == Ok::<ConfigStart, Error>(ConfigStart::Loaded),
        !is_dir && !loaded && recover ==> r == Ok::<ConfigStart, Error>(ConfigStart::Recover),
        !is_dir && !loaded && !recover ==> (r matches Err(Error::Other(m)) && m@
            == "Not recoverable"@),
{
    if is_dir {
        return Err(Error::Other(String::from_str("Not a file")));
    }
    if loaded {
        Ok(ConfigStart::Loaded)
    } else if recover {
        Ok(ConfigStart::Recover)
    } else {
        Err(Error::Other(String::from_str("Not recoverable")))
    }
}

} // verus!

verus! {

/// One step of the charging range never both allows and stops charging,
/// and it stops charging only when the battery was already known full.
pub proof fn law_charge_step_consistent(
    full_since: Option<Span>,
    below_begin: bool,
    reached_end: bool,
    nearly_full: bool,
    allow_charging: bool,
    full_charge_duration: Option<u64>,
)
    ensures
        ({
            let s = charge_step_of(
                full_since,
                below_begin,
                reached_end,
                nearly_full,
                allow_charging,
                full_charge_duration,
            );
            &&& !(s.enable_charging && s.disable_charging)
            &&& s.disable_charging ==> full_since is Some && s.full_mark == FullMark::Keep
        }),
{
}

/// After the automatic power on is turned on the alarm clock is refused,
/// and after it is turned off the alarm clock is allowed again.
pub proof fn law_alarm_conflict(old: PiSugarConfig, new: PiSugarConfig, enable: bool)
    requires
        new == (PiSugarConfig { auto_power_on: Some(enable), ..old }),
    ensures
        alarm_refused(new) == enable,
{
}

} // verus!

verus! {

/// The shell command that tells every logged-in user that the power goes
/// off soon: `wall` with the message in single quotes.
pub fn notify_shutdown_soon(message: &str) -> (cmd: String)
    ensures
        cmd@ == "/usr/bin/wall -n '"@ + message@ + "'"@,
{
    let mut v = chars_of("/usr/bin/wall -n '");
    append_str(&mut v, message);
    append_str(&mut v, "'");
    string_from_chars(&v)
}

/// The shell command that sets the system clock to a local date and time.
pub open spec fn date_command_text(
    year: i32,
    month: u32,
    day: u32,
    hour: u32,
    minute: u32,
    second: u32,
) -> Seq<char> {
    "/bin/date -s \""@ + signed_decimal(year as int) + "-"@ + decimal(month as nat) + "-"@ + decimal(
        day as nat,
    ) + " "@ + decimal(hour as nat) + ":"@ + decimal(minute as nat) + ":"@ + decimal(second as nat)
        + "\""@
}

/// The `date -s` command that writes a local date and time to the system
/// clock (see `date_command_text`).
pub fn set_date_command(year: i32, month: u32, day: u32, hour: u32, minute: u32, second: u32) -> (cmd:
    String)
    ensures
        cmd@ == date_command_text(year, month, day, hour, minute, second),
{
    let mut v = chars_of("/bin/date -s \"");
    let y = i64_to_string(year as i64);
    append_chars(&mut v, &chars_of(y.as_str()));
    append_str(&mut v, "-");
    append_decimal(&mut v, month as u64);
    append_str(&mut v, "-");
    append_decimal(&mut v, day as u64);
    append_str(&mut v, " ");
    append_decimal(&mut v, hour as u64);
    append_str(&mut v, ":");
    append_decimal(&mut v, minute as u64);
    append_str(&mut v, ":");
    append_decimal(&mut v, second as u64);
    append_str(&mut v, "\"");
    string_from_chars(&v)
}

/// Weekday repeat of the wake-up test alarm: every day.
pub const TEST_WAKE_REPEAT: u8 = 0b0111_1111;

/// The wake-up test: the RTC is set to `now` and the alarm to 90 seconds
/// later (both Unix times, as UTC registers), repeated every day.
pub fn test_wake_plan(now: i64) -> (r: Option<(RTCRawTime, RTCRawTime)>)
    requires
        now + 90 <= i64::MAX,
    ensures
        match (utc_fields(now as int), utc_fields(now + 90)) {
            (Some(a), Some(b)) => r matches Some(p) && p.0.0@ == raw_of_fields(a) && p.1.0@
                == raw_of_fields(b),
            _ => r is None,
        },
{
    match (RTCRawTime::from_unix(now), RTCRawTime::from_unix(now + 90)) {
        (Some(a), Some(b)) => Some((a, b)),
        _ => None,
    }
}

} // verus!

verus! {

/// What one poll of the core runs on the chips.
#[derive(Debug, PartialEq, Eq, Clone, Copy, Structural)]
pub enum PollStep {
    /// Set up the battery chip.
    InitBattery,
    /// Set up the RTC; the core is ready once this succeeds.
    InitRtc,
    /// Read the battery chip and collect its events.
    PollBattery,
}

/// The first chip step of a poll: the battery set up until the core is
/// ready, the battery read once it is.
pub open spec fn first_step_of(ready: bool) -> PollStep {
    if ready {
        PollStep::PollBattery
    } else {
        PollStep::InitBattery
    }
}

/// Where a poll goes after `step` ran, successfully or not: whether the core
/// is ready now, and the next step (`None`: the poll ends, with the step's
/// error when it failed). The core becomes ready when the RTC set up
/// succeeds; a failed step ends the poll and leaves the core as it was.
pub open spec fn poll_transition(ready: bool, step: PollStep, ok: bool) -> (bool, Option<PollStep>) {
    if !ok {
        (ready, None)
    } else {
        match step {
            PollStep::InitBattery => (ready, Some(PollStep::InitRtc)),
            PollStep::InitRtc => (true, Some(PollStep::PollBattery)),
            PollStep::PollBattery => (ready, None),
        }
    }
}

/// The first chip step of a poll (see `first_step_of`).
pub fn first_poll_step(ready: bool) -> (r: PollStep)
    ensures
        r == first_step_of(ready),
{
    if ready {
        PollStep::PollBattery
    } else {
        PollStep::InitBattery
    }
}

/// The readiness of the core and the next chip step after `step` (see
/// `poll_transition`).
pub fn next_poll_step(ready: bool, step: PollStep, ok: bool) -> (r: (bool, Option<PollStep>))
    ensures
        r == poll_transition(ready, step, ok),
{
    if !ok {
        return (ready, None);
    }
    match step {
        PollStep::InitBattery => (ready, Some(PollStep::InitRtc)),
        PollStep::InitRtc => (true, Some(PollStep::PollBattery)),
        PollStep::PollBattery => (ready, None),
    }
}

/// The steps that a poll runs from `step` on, each ending as `ok` says, and
/// whether the core is ready at the end (at most `fuel` steps).
pub open spec fn run_poll(
    ready: bool,
    step: Option<PollStep>,
    ok: spec_fn(PollStep) -> bool,
    fuel: nat,
) -> (Seq<PollStep>, bool)
    decreases fuel,
{
    match step {
        None => (Seq::empty(), ready),
        Some(s) => if fuel == 0 {
            (Seq::empty(), ready)
        } else {
            let t = poll_transition(ready, s, ok(s));
            let rest = run_poll(t.0, t.1, ok, (fuel - 1) as nat);
            (seq![s] + rest.0, rest.1)
        },
    }
}

/// The chips are set up once. A ready core only reads the battery; a core
/// that is not ready sets up the battery, then (only if that succeeded) the
/// RTC, then (only if that succeeded) reads the battery. The core is ready
/// after the poll exactly when it was, or both set ups succeeded; and a poll
/// of a ready core sets up no chip.
pub proof fn law_poll_init_once(ready: bool, ok: spec_fn(PollStep) -> bool)
    ensures
        ({
            let run = run_poll(ready, Some(first_step_of(ready)), ok, 3);
            &&& run.1 == (ready || (ok(PollStep::InitBattery) && ok(PollStep::InitRtc)))
            &&& ready ==> run.0 == seq![PollStep::PollBattery]
            &&& !ready ==> run.0 == if !ok(PollStep::InitBattery) {
                seq![PollStep::InitBattery]
            } else if !ok(PollStep::InitRtc) {
                seq![PollStep::InitBattery, PollStep::InitRtc]
            } else {
                seq![PollStep::InitBattery, PollStep::InitRtc, PollStep::PollBattery]
            }
            &&& run.1 ==> first_step_of(run.1) == PollStep::PollBattery
        }),
{
    reveal_with_fuel(run_poll, 4);
    let run = run_poll(ready, Some(first_step_of(ready)), ok, 3);
    if ready {
        assert(run.0 =~= seq![PollStep::PollBattery]);
    } else if !ok(PollStep::InitBattery) {
        assert(run.0 =~= seq![PollStep::InitBattery]);
    } else if !ok(PollStep::InitRtc) {
        assert(run.0 =~= seq![PollStep::InitBattery, PollStep::InitRtc]);
    } else {
        assert(run.0 =~= seq![PollStep::InitBattery, PollStep::InitRtc, PollStep::PollBattery]);
    }
}

/// Whether the PiSugar 3 poll reads the soft poweroff request: only when soft
/// poweroff is switched on.
pub fn soft_poweroff_watched(config: &PiSugarConfig) -> (r: bool)
    ensures
        r == (config.soft_poweroff == Some(true)),
{
    match config.soft_poweroff {
        Some(b) => b,
        None => false,
    }
}

/// The PiSugar 3 chip is read at most every 500 ms; `since_last` is `None`
/// when the last read lies in the future.
pub fn pisugar3_poll_due(since_last: Option<Span>) -> (r: bool)
    requires
        since_last matches Some(s) ==> span_valid(s),
    ensures
        r == (since_last matches Some(s) && span_nanos(s) >= 500_000_000),
{
    match since_last {
        Some(s) => s.secs >= 1 || s.nanos >= 500_000_000,
        None => false,
    }
}

} // verus!
