//! The commands of the PiSugar server, their names, and the answer sent back
//! for a request.

use vstd::prelude::*;

use crate::text::{
    append_chars, append_str, chars_of, join_strings, join_with, string_from_chars,
    unsigned_text, views,
};

verus! {

/// Which button tap a setting is for.
#[derive(Debug, PartialEq, Eq, Clone, Copy, Structural)]
pub enum ButtonMode {
    Single,
    Double,
    Long,
}

pub open spec fn mode_name(m: ButtonMode) -> Seq<char> {
    match m {
        ButtonMode::Single => "single"@,
        ButtonMode::Double => "double"@,
        ButtonMode::Long => "long"@,
    }
}

impl ButtonMode {
    /// The name of the mode in commands.
    pub fn to_str(&self) -> (s: &'static str)
        ensures
            s@ == mode_name(*self),
    {
        match *self {
            ButtonMode::Single => "single",
            ButtonMode::Double => "double",
            ButtonMode::Long => "long",
        }
    }

    /// The mode with this exact name.
    pub fn from_str(s: &str) -> (r: Result<ButtonMode, ()>)
        ensures
            r matches Ok(m) ==> mode_name(m) == s@,
            r is Err ==> forall|m: ButtonMode| mode_name(m) != s@,
    {
        let c = chars_of(s);
        if crate::text::chars_eq(&c, &chars_of("single")) {
            Ok(ButtonMode::Single)
        } else if crate::text::chars_eq(&c, &chars_of("double")) {
            Ok(ButtonMode::Double)
        } else if crate::text::chars_eq(&c, &chars_of("long")) {
            Ok(ButtonMode::Long)
        } else {
            proof {
                assert forall|m: ButtonMode| mode_name(m) != s@ by {
                    match m {
                        ButtonMode::Single => {},
                        ButtonMode::Double => {},
                        ButtonMode::Long => {},
                    }
                }
            }
            Err(())
        }
    }

    /// All modes, in the order the help lists them.
    pub fn value_variants() -> (v: Vec<ButtonMode>)
        ensures
            v@ == seq![ButtonMode::Single, ButtonMode::Double, ButtonMode::Long],
    {
        let v = vec![ButtonMode::Single, ButtonMode::Double, ButtonMode::Long];
        assert(v@ =~= seq![ButtonMode::Single, ButtonMode::Double, ButtonMode::Long]);
        v
    }
}

/// The queries of the `get` command.
#[derive(Debug, PartialEq, Eq, Clone, Copy, Structural)]
pub enum GetCmds {
    Version,
    Model,
    FirmwareVersion,
    Battery,
    BatteryI,
    BatteryV,
    BatteryKeepInput,
    BatteryLedAmount,
    BatteryPowerPlugged,
    BatteryAllowCharging,
    BatteryChargingRange,
    BatteryCharging,
    BatteryInputProtectEnabled,
    BatteryOutputEnabled,
    FullChargeDuration,
    SystemTime,
    RtcAddr,
    RtcTime,
    RtcTimeList,
    RtcAlarmFlag,
    RtcAlarmTime,
    RtcAlarmTimeList,
    RtcAlarmEnabled,
    RtcAdjustPpm,
    AlarmRepeat,
    SafeShutdownLevel,
    SafeShutdownDelay,
    ButtonEnable { mode: ButtonMode },
    ButtonShell { mode: ButtonMode },
    AutoPowerOn,
    AuthUsername,
    AntiMistouch,
    SoftPoweroff,
    SoftPoweroffShell,
    Temperature,
    InputProtect,
}

/// A boolean argument: `true` / `false`, or a `u32` that is true when not
/// zero; anything else reads as false.
#[derive(Debug, PartialEq, Eq, Clone, Copy, Structural)]
pub struct BoolValue(pub bool);

/// The truth value that a boolean argument text stands for.
pub open spec fn bool_value_of(s: Seq<char>) -> bool {
    if s == "true"@ {
        true
    } else if s == "false"@ {
        false
    } else {
        match unsigned_text(s) {
            Some(v) => v <= u32::MAX && v != 0,
            None => false,
        }
    }
}

impl From<String> for BoolValue {
    fn from(value: String) -> (r: BoolValue) {
        let c = chars_of(value.as_str());
        if crate::text::chars_eq(&c, &chars_of("true")) {
            return BoolValue(true);
        }
        if crate::text::chars_eq(&c, &chars_of("false")) {
            return BoolValue(false);
        }
        match crate::text::parse_unsigned(&c, 0xffff_ffff) {
            Some(n) => BoolValue(n != 0),
            None => BoolValue(false),
        }
    }
}

impl vstd::std_specs::convert::FromSpecImpl<String> for BoolValue {
    open spec fn obeys_from_spec() -> bool {
        true
    }

    open spec fn from_spec(v: String) -> BoolValue {
        BoolValue(bool_value_of(v@))
    }
}

/// The single boolean argument of a switch command.
#[derive(Debug, PartialEq, Eq, Clone, Copy, Structural)]
pub struct BoolArg {
    pub enable: BoolValue,
}

impl BoolArg {
    /// Whether the switch is turned on.
    pub fn value(&self) -> (r: bool)
        ensures
            r == self.enable.0,
    {
        self.enable.0
    }
}

/// A moment with the UTC offset it was written in.
#[derive(Debug, PartialEq, Eq, Clone, Copy, Structural)]
pub struct OffsetTime {
    /// Unix time, seconds
    pub timestamp: i64,
    /// Offset east of UTC, seconds
    pub offset: i32,
}

/// Why the words of a request give no command.
#[derive(Debug, PartialEq, Eq, Clone)]
pub enum CmdsError {
    /// The request asks for help; these are the words that may follow its
    /// topic.
    Help(Vec<String>),
    /// The request is no command.
    Invalid,
}

/// A server command.
///
/// Real-valued arguments are kept as the text that was given; that text is
/// checked to be a number as `str::parse` reads it.
#[derive(Debug, PartialEq, Clone)]
pub enum Cmds {
    Get(GetCmds),
    SetBatteryKeepInput(BoolArg),
    SetBatteryChargingRange { range: Vec<String> },
    SetBatteryInputProtect(BoolArg),
    SetBatteryOutput(BoolArg),
    SetFullChargeDuration { seconds: u64 },
    SetAllowCharging(BoolArg),
    SetRtcAddr { addr: u8 },
    RtcClearFlag,
    RtcPi2rtc,
    RtcRtc2pi,
    RtcWeb,
    RtcAlarmSet { datetime: OffsetTime, weekdays: u8 },
    RtcAlarmDisable,
    RtcAdjustPpm { ppm: String },
    SetSafeShutdownLevel { level: String },
    SetSafeShutdownDelay { delay: String },
    RtcTestWake,
    SetButtonEnable { mode: ButtonMode, enable: BoolValue },
    SetButtonShell { mode: ButtonMode, shell: Vec<String> },
    SetAutoPowerOn(BoolArg),
    SetAuth { username: Option<String>, password: Option<String> },
    ForceShutdown,
    SetAntiMistouch(BoolArg),
    SetSoftPoweroff(BoolArg),
    SetSoftPoweroffShell { shell: Vec<String> },
    SetInputProtect(BoolArg),
}

/// The answer to a request: the command word, extra words, and the result
/// or the error message.
pub struct Response {
    /// command name
    pub cmd: Option<String>,
    /// extra info
    pub extras: Vec<String>,
    /// result
    pub result: Result<Option<String>, String>,
}

pub open spec fn result_text(r: Result<Option<String>, String>) -> Seq<char> {
    match r {
        Ok(Some(s)) => s@,
        Ok(None) => "done"@,
        Err(e) => e@,
    }
}

pub open spec fn extra_and_result_text(extras: Seq<String>, r: Result<Option<String>, String>) -> Seq<
    char,
> {
    let extra = join_with(views(extras), " "@);
    if extra.len() == 0 {
        result_text(r)
    } else {
        extra + " "@ + result_text(r)
    }
}

pub open spec fn entire_text(
    cmd: Option<String>,
    extras: Seq<String>,
    r: Result<Option<String>, String>,
) -> Seq<char> {
    match cmd {
        Some(c) => c@ + ": "@ + extra_and_result_text(extras, r),
        None => extra_and_result_text(extras, r),
    }
}

impl Response {
    pub fn is_ok(&self) -> (r: bool)
        ensures
            r == self.result is Ok,
    {
        self.result.is_ok()
    }

    /// The result, `done` for a success without a value, or the error.
    pub fn result_string(&self) -> (s: String)
        ensures
            s@ == result_text(self.result),
    {
        match &self.result {
            Ok(Some(res)) => res.clone(),
            Ok(None) => String::from_str("done"),
            Err(e) => e.clone(),
        }
    }

    /// The extra words, then the result, separated by a space.
    pub fn extra_and_result_string(&self) -> (s: String)
        ensures
            s@ == extra_and_result_text(self.extras@, self.result),
    {
        let extra = join_strings(&self.extras, " ");
        let res = self.result_string();
        if extra.as_str().unicode_len() == 0 {
            res
        } else {
            let mut v = chars_of(extra.as_str());
            append_str(&mut v, " ");
            append_chars(&mut v, &chars_of(res.as_str()));
            string_from_chars(&v)
        }
    }

    /// The whole answer line: `cmd: ` first when there is a command word.
    pub fn entire_string(&self) -> (s: String)
        ensures
            s@ == entire_text(self.cmd, self.extras@, self.result),
    {
        let rest = self.extra_and_result_string();
        match &self.cmd {
            Some(cmd) => {
                let mut v = chars_of(cmd.as_str());
                append_str(&mut v, ": ");
                append_chars(&mut v, &chars_of(rest.as_str()));
                string_from_chars(&v)
            },
            None => rest,
        }
    }

    /// The answer as displayed (the whole answer line).
    pub fn to_string(&self) -> (s: String)
        ensures
            s@ == entire_text(self.cmd, self.extras@, self.result),
    {
        self.entire_string()
    }
}

} // verus!
