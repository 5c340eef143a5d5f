//! The grammar of server commands: a request is split into shell words, the
//! first word (taken as a path, by its file stem) names the command and the
//! other words are its arguments.

use vstd::prelude::*;

use crate::cmds::{
    bool_value_of, mode_name, BoolArg, BoolValue, ButtonMode, Cmds, CmdsError, GetCmds, OffsetTime,
};
use crate::config::opt_view;
use crate::numtext::{is_real_text, real_text_ok};
use crate::path::{file_stem, lemma_plain_name_stem, path_file_stem};
use crate::text::{
    chars_eq, chars_of, parse_signed_in_range, parse_unsigned, signed_text, string_from_chars,
    unsigned_text, views,
};

verus! {

/// The words of `s` as `shlex::split` splits it; `None` for erroneous input.
pub uninterp spec fn shlex_words(s: Seq<char>) -> Option<Seq<Seq<char>>>;

/// What `DateTime<FixedOffset>` parses from `s`: Unix time and UTC offset,
/// both in seconds.
pub uninterp spec fn offset_time_text(s: Seq<char>) -> Option<(i64, i32)>;

/// Calls `shlex::split`, whose result this library takes as given: the words
/// of a POSIX shell line, or `None` for an unclosed quote or a trailing
/// escape.
#[verifier::external_body]
fn split_words(s: &str) -> (r: Option<Vec<String>>)
    ensures
        match shlex_words(s@) {
            Some(ws) => r matches Some(v) && views(v@) == ws,
            None => r is None,
        },
{
    shlex::split(s)
}

pub open spec fn offset_time_of(t: (i64, i32)) -> OffsetTime {
    OffsetTime { timestamp: t.0, offset: t.1 }
}

/// Calls `str::parse::<chrono::DateTime<FixedOffset>>` (relaxed RFC 3339) and
/// keeps its Unix time and offset; the result is the named `offset_time_text`.
#[verifier::external_body]
fn parse_offset_time(s: &str) -> (r: Option<OffsetTime>)
    ensures
        match offset_time_text(s@) {
            Some(t) => r == Some(offset_time_of(t)),
            None => r is None,
        },
{
    match s.parse::<chrono::DateTime<chrono::FixedOffset>>() {
        Ok(d) => Some(OffsetTime { timestamp: d.timestamp(), offset: d.offset().local_minus_utc() }),
        Err(_) => None,
    }
}

/// Index of the first entry of `list` equal to `w`, or -1.
pub open spec fn first_match(list: Seq<Seq<char>>, w: Seq<char>) -> int
    decreases list.len(),
{
    if list.len() == 0 {
        -1
    } else if list[0] == w {
        0
    } else {
        let k = first_match(list.drop_first(), w);
        if k < 0 {
            -1
        } else {
            k + 1
        }
    }
}

proof fn lemma_first_match(list: Seq<Seq<char>>, w: Seq<char>, i: int)
    requires
        0 <= i <= list.len(),
        forall|j: int| 0 <= j < i ==> list[j] != w,
        i < list.len() ==> list[i] == w,
    ensures
        first_match(list, w) == (if i < list.len() {
            i
        } else {
            -1
        }),
    decreases i,
{
    if i > 0 {
        let t = list.drop_first();
        assert forall|j: int| 0 <= j < i - 1 implies t[j] != w by {
            assert(t[j] == list[j + 1]);
        }
        if i < list.len() {
            assert(t[i - 1] == list[i]);
        }
        lemma_first_match(t, w, i - 1);
        assert(list[0] != w);
    }
}

proof fn lemma_first_match_found(list: Seq<Seq<char>>, w: Seq<char>)
    ensures
        -1 <= first_match(list, w) < list.len(),
        first_match(list, w) >= 0 ==> list[first_match(list, w)] == w,
    decreases list.len(),
{
    if list.len() > 0 && list[0] != w {
        lemma_first_match_found(list.drop_first(), w);
    }
}

pub open spec fn strs_view(v: Seq<&str>) -> Seq<Seq<char>> {
    v.map_values(|s: &str| s@)
}

/// Position of `w` in `names` (as `first_match`), `names.len()` when absent.
fn find_word(names: &Vec<&str>, w: &Vec<char>) -> (k: usize)
    ensures
        k <= names@.len(),
        first_match(strs_view(names@), w@) == (if k < names@.len() {
            k as int
        } else {
            -1
        }),
{
    let ghost list = strs_view(names@);
    let mut i: usize = 0;
    while i < names.len()
        invariant
            i <= names@.len(),
            list == strs_view(names@),
            forall|j: int| 0 <= j < i ==> list[j] != w@,
        decreases names@.len() - i,
    {
        let c = chars_of(names[i]);
        if chars_eq(&c, w) {
            proof {
                lemma_first_match(list, w@, i as int);
            }
            return i;
        }
        i = i + 1;
    }
    proof {
        lemma_first_match(list, w@, i as int);
    }
    names.len()
}

/// The command words, in the order of the `Cmds` variants.
pub open spec fn cmd_names() -> Seq<Seq<char>> {
    seq![
        "get"@,
        "set_battery_keep_input"@,
        "set_battery_charging_range"@,
        "set_battery_input_protect"@,
        "set_battery_output"@,
        "set_full_charge_duration"@,
        "set_allow_charging"@,
        "set_rtc_addr"@,
        "rtc_clear_flag"@,
        "rtc_pi2rtc"@,
        "rtc_rtc2pi"@,
        "rtc_web"@,
        "rtc_alarm_set"@,
        "rtc_alarm_disable"@,
        "rtc_adjust_ppm"@,
        "set_safe_shutdown_level"@,
        "set_safe_shutdown_delay"@,
        "rtc_test_wake"@,
        "set_button_enable"@,
        "set_button_shell"@,
        "set_auto_power_on"@,
        "set_auth"@,
        "force_shutdown"@,
        "set_anti_mistouch"@,
        "set_soft_poweroff"@,
        "set_soft_poweroff_shell"@,
        "set_input_protect"@,
    ]
}

fn cmd_name_list() -> (v: Vec<&'static str>)
    ensures
        strs_view(v@) == cmd_names(),
{
    let v: Vec<&'static str> = vec![
        "get",
        "set_battery_keep_input",
        "set_battery_charging_range",
        "set_battery_input_protect",
        "set_battery_output",
        "set_full_charge_duration",
        "set_allow_charging",
        "set_rtc_addr",
        "rtc_clear_flag",
        "rtc_pi2rtc",
        "rtc_rtc2pi",
        "rtc_web",
        "rtc_alarm_set",
        "rtc_alarm_disable",
        "rtc_adjust_ppm",
        "set_safe_shutdown_level",
        "set_safe_shutdown_delay",
        "rtc_test_wake",
        "set_button_enable",
        "set_button_shell",
        "set_auto_power_on",
        "set_auth",
        "force_shutdown",
        "set_anti_mistouch",
        "set_soft_poweroff",
        "set_soft_poweroff_shell",
        "set_input_protect",
    ];
    assert(strs_view(v@) =~= cmd_names());
    v
}

/// The position of a command's variant in `Cmds` (and of its word in `cmd_names`).
pub open spec fn cmd_index(c: Cmds) -> int {
    match c {
        Cmds::Get(_) => 0,
        Cmds::SetBatteryKeepInput(_) => 1,
        Cmds::SetBatteryChargingRange { .. } => 2,
        Cmds::SetBatteryInputProtect(_) => 3,
        Cmds::SetBatteryOutput(_) => 4,
        Cmds::SetFullChargeDuration { .. } => 5,
        Cmds::SetAllowCharging(_) => 6,
        Cmds::SetRtcAddr { .. } => 7,
        Cmds::RtcClearFlag => 8,
        Cmds::RtcPi2rtc => 9,
        Cmds::RtcRtc2pi => 10,
        Cmds::RtcWeb => 11,
        Cmds::RtcAlarmSet { .. } => 12,
        Cmds::RtcAlarmDisable => 13,
        Cmds::RtcAdjustPpm { .. } => 14,
        Cmds::SetSafeShutdownLevel { .. } => 15,
        Cmds::SetSafeShutdownDelay { .. } => 16,
        Cmds::RtcTestWake => 17,
        Cmds::SetButtonEnable { .. } => 18,
        Cmds::SetButtonShell { .. } => 19,
        Cmds::SetAutoPowerOn(_) => 20,
        Cmds::SetAuth { .. } => 21,
        Cmds::ForceShutdown => 22,
        Cmds::SetAntiMistouch(_) => 23,
        Cmds::SetSoftPoweroff(_) => 24,
        Cmds::SetSoftPoweroffShell { .. } => 25,
        Cmds::SetInputProtect(_) => 26,
    }
}

/// The query words, in the order of the `GetCmds` variants.
pub open spec fn get_names() -> Seq<Seq<char>> {
    seq![
        "version"@,
        "model"@,
        "firmware_version"@,
        "battery"@,
        "battery_i"@,
        "battery_v"@,
        "battery_keep_input"@,
        "battery_led_amount"@,
        "battery_power_plugged"@,
        "battery_allow_charging"@,
        "battery_charging_range"@,
        "battery_charging"@,
        "battery_input_protect_enabled"@,
        "battery_output_enabled"@,
        "full_charge_duration"@,
        "system_time"@,
        "rtc_addr"@,
        "rtc_time"@,
        "rtc_time_list"@,
        "rtc_alarm_flag"@,
        "rtc_alarm_time"@,
        "rtc_alarm_time_list"@,
        "rtc_alarm_enabled"@,
        "rtc_adjust_ppm"@,
        "alarm_repeat"@,
        "safe_shutdown_level"@,
        "safe_shutdown_delay"@,
        "button_enable"@,
        "button_shell"@,
        "auto_power_on"@,
        "auth_username"@,
        "anti_mistouch"@,
        "soft_poweroff"@,
        "soft_poweroff_shell"@,
        "temperature"@,
        "input_protect"@,
    ]
}

fn get_name_list() -> (v: Vec<&'static str>)
    ensures
        strs_view(v@) == get_names(),
{
    let v: Vec<&'static str> = vec![
        "version",
        "model",
        "firmware_version",
        "battery",
        "battery_i",
        "battery_v",
        "battery_keep_input",
        "battery_led_amount",
        "battery_power_plugged",
        "battery_allow_charging",
        "battery_charging_range",
        "battery_charging",
        "battery_input_protect_enabled",
        "battery_output_enabled",
        "full_charge_duration",
        "system_time",
        "rtc_addr",
        "rtc_time",
        "rtc_time_list",
        "rtc_alarm_flag",
        "rtc_alarm_time",
        "rtc_alarm_time_list",
        "rtc_alarm_enabled",
        "rtc_adjust_ppm",
        "alarm_repeat",
        "safe_shutdown_level",
        "safe_shutdown_delay",
        "button_enable",
        "button_shell",
        "auto_power_on",
        "auth_username",
        "anti_mistouch",
        "soft_poweroff",
        "soft_poweroff_shell",
        "temperature",
        "input_protect",
    ];
    assert(strs_view(v@) =~= get_names());
    v
}

/// The position of a query's variant in `GetCmds` (and of its word in `get_names`).
pub open spec fn get_index(g: GetCmds) -> int {
    match g {
        GetCmds::Version => 0,
        GetCmds::Model => 1,
        GetCmds::FirmwareVersion => 2,
        GetCmds::Battery => 3,
        GetCmds::BatteryI => 4,
        GetCmds::BatteryV => 5,
        GetCmds::BatteryKeepInput => 6,
        GetCmds::BatteryLedAmount => 7,
        GetCmds::BatteryPowerPlugged => 8,
        GetCmds::BatteryAllowCharging => 9,
        GetCmds::BatteryChargingRange => 10,
        GetCmds::BatteryCharging => 11,
        GetCmds::BatteryInputProtectEnabled => 12,
        GetCmds::BatteryOutputEnabled => 13,
        GetCmds::FullChargeDuration => 14,
        GetCmds::SystemTime => 15,
        GetCmds::RtcAddr => 16,
        GetCmds::RtcTime => 17,
        GetCmds::RtcTimeList => 18,
        GetCmds::RtcAlarmFlag => 19,
        GetCmds::RtcAlarmTime => 20,
        GetCmds::RtcAlarmTimeList => 21,
        GetCmds::RtcAlarmEnabled => 22,
        GetCmds::RtcAdjustPpm => 23,
        GetCmds::AlarmRepeat => 24,
        GetCmds::SafeShutdownLevel => 25,
        GetCmds::SafeShutdownDelay => 26,
        GetCmds::ButtonEnable { .. } => 27,
        GetCmds::ButtonShell { .. } => 28,
        GetCmds::AutoPowerOn => 29,
        GetCmds::AuthUsername => 30,
        GetCmds::AntiMistouch => 31,
        GetCmds::SoftPoweroff => 32,
        GetCmds::SoftPoweroffShell => 33,
        GetCmds::Temperature => 34,
        GetCmds::InputProtect => 35,
    }
}

/// The button mode named `s`.
pub open spec fn mode_of(s: Seq<char>) -> Option<ButtonMode> {
    if s == "single"@ {
        Some(ButtonMode::Single)
    } else if s == "double"@ {
        Some(ButtonMode::Double)
    } else if s == "long"@ {
        Some(ButtonMode::Long)
    } else {
        None
    }
}

/// `rest` (the words after `get`) asks the query `g`.
pub open spec fn get_parses_to(rest: Seq<Seq<char>>, g: GetCmds) -> bool {
    &&& rest.len() >= 1
    &&& first_match(get_names(), rest[0]) == get_index(g)
    &&& match g {
        GetCmds::ButtonEnable { mode } => rest.len() == 2 && mode_of(rest[1]) == Some(mode),
        GetCmds::ButtonShell { mode } => rest.len() == 2 && mode_of(rest[1]) == Some(mode),
        _ => rest.len() == 1,
    }
}

/// The pieces of `s` between the characters `d` (as `str::split`).
pub open spec fn split_on(s: Seq<char>, d: char) -> Seq<Seq<char>>
    decreases s.len(),
{
    if s.len() == 0 {
        seq![Seq::empty()]
    } else {
        let init = split_on(s.drop_last(), d);
        if s.last() == d {
            init.push(Seq::empty())
        } else {
            init.update(init.len() - 1, init.last().push(s.last()))
        }
    }
}

/// The pieces of all the words, each split at `d`, in order.
pub open spec fn split_all(ws: Seq<Seq<char>>, d: char) -> Seq<Seq<char>>
    decreases ws.len(),
{
    if ws.len() == 0 {
        Seq::empty()
    } else {
        split_all(ws.drop_last(), d) + split_on(ws.last(), d)
    }
}

pub open spec fn all_real(ps: Seq<Seq<char>>) -> bool {
    forall|i: int| 0 <= i < ps.len() ==> is_real_text(#[trigger] ps[i])
}

pub open spec fn bool_arg_of(rest: Seq<Seq<char>>, b: BoolArg) -> bool {
    rest.len() == 1 && b.enable.0 == bool_value_of(rest[0])
}

pub open spec fn real_arg_of(rest: Seq<Seq<char>>, t: Seq<char>) -> bool {
    rest.len() == 1 && is_real_text(rest[0]) && t == rest[0]
}

pub open spec fn word_at(rest: Seq<Seq<char>>, i: int) -> Option<Seq<char>> {
    if 0 <= i < rest.len() {
        Some(rest[i])
    } else {
        None
    }
}

/// The words `rest` after the command word give the command `c`; `dashed`
/// tells that some argument starts with '-', so that all of them count as
/// plain values and `get` takes no query.
pub open spec fn args_parse_to(c: Cmds, rest: Seq<Seq<char>>, dashed: bool) -> bool {
    match c {
        Cmds::Get(g) => !dashed && get_parses_to(rest, g),
        Cmds::SetBatteryKeepInput(b) => bool_arg_of(rest, b),
        Cmds::SetBatteryChargingRange { range } => all_real(split_all(rest, ',')) && views(range@)
            == split_all(rest, ','),
        Cmds::SetBatteryInputProtect(b) => bool_arg_of(rest, b),
        Cmds::SetBatteryOutput(b) => bool_arg_of(rest, b),
        Cmds::SetFullChargeDuration { seconds } => rest.len() == 1 && unsigned_text(rest[0]) == Some(
            seconds as nat,
        ),
        Cmds::SetAllowCharging(b) => bool_arg_of(rest, b),
        Cmds::SetRtcAddr { addr } => rest.len() == 1 && signed_text(rest[0]) == Some(addr as int),
        Cmds::RtcClearFlag => rest.len() == 0,
        Cmds::RtcPi2rtc => rest.len() == 0,
        Cmds::RtcRtc2pi => rest.len() == 0,
        Cmds::RtcWeb => rest.len() == 0,
        Cmds::RtcAlarmSet { datetime, weekdays } => rest.len() == 2 && offset_time_text(rest[0])
            == Some((datetime.timestamp, datetime.offset)) && signed_text(rest[1]) == Some(
            weekdays as int,
        ),
        Cmds::RtcAlarmDisable => rest.len() == 0,
        Cmds::RtcAdjustPpm { ppm } => real_arg_of(rest, ppm@),
        Cmds::SetSafeShutdownLevel { level } => real_arg_of(rest, level@),
        Cmds::SetSafeShutdownDelay { delay } => real_arg_of(rest, delay@),
        Cmds::RtcTestWake => rest.len() == 0,
        Cmds::SetButtonEnable { mode, enable } => rest.len() == 2 && mode_of(rest[0]) == Some(mode)
            && enable.0 == bool_value_of(rest[1]),
        Cmds::SetButtonShell { mode, shell } => rest.len() >= 1 && mode_of(rest[0]) == Some(mode)
            && views(shell@) == rest.drop_first(),
        Cmds::SetAutoPowerOn(b) => bool_arg_of(rest, b),
        Cmds::SetAuth { username, password } => rest.len() <= 2 && opt_view(username) == word_at(
            rest,
            0,
        ) && opt_view(password) == word_at(rest, 1),
        Cmds::ForceShutdown => rest.len() == 0,
        Cmds::SetAntiMistouch(b) => bool_arg_of(rest, b),
        Cmds::SetSoftPoweroff(b) => bool_arg_of(rest, b),
        Cmds::SetSoftPoweroffShell { shell } => views(shell@) == rest,
        Cmds::SetInputProtect(b) => bool_arg_of(rest, b),
    }
}

/// Some word after the first starts with '-'.
pub open spec fn has_dash_arg(ws: Seq<Seq<char>>) -> bool {
    exists|i: int| 1 <= i < ws.len() && (#[trigger] ws[i]).len() > 0 && ws[i][0] == '-'
}

/// The words `ws` of a request give the command `c`: the file stem of the
/// first word names it; a first word without a file stem is skipped, and the
/// next one names it.
pub open spec fn words_parse_to(ws: Seq<Seq<char>>, c: Cmds) -> bool {
    &&& ws.len() >= 1
    &&& match file_stem(ws[0]) {
        Some(name) => first_match(cmd_names(), name) == cmd_index(c) && args_parse_to(
            c,
            ws.drop_first(),
            has_dash_arg(ws),
        ),
        None => ws.len() >= 2 && !has_dash_arg(ws) && first_match(cmd_names(), ws[1]) == cmd_index(
            c,
        ) && args_parse_to(c, ws.skip(2), false),
    }
}

/// The words that may follow the help topic `ws` (the words after `help`):
/// all commands for no topic, the queries for `get`, nothing for a single
/// command or query; `help` itself is listed where there is a list.
/// `None` when the topic names no command.
pub open spec fn help_topic_choices(topic: Seq<Seq<char>>) -> Option<Seq<Seq<char>>> {
    if topic.len() == 0 {
        Some(cmd_names().push("help"@))
    } else if topic.len() == 1 && first_match(cmd_names(), topic[0]) == 0 {
        Some(get_names().push("help"@))
    } else if topic.len() == 1 && (first_match(cmd_names(), topic[0]) > 0 || topic[0] == "help"@) {
        Some(Seq::empty())
    } else if topic.len() == 2 && first_match(cmd_names(), topic[0]) == 0 && first_match(
        get_names(),
        topic[1],
    ) >= 0 {
        Some(Seq::empty())
    } else {
        None
    }
}

/// The words `ws` ask for help (their first word's file stem is `help`) on a
/// topic that names a command; the result lists the words that may follow
/// that topic.
pub open spec fn help_choices(ws: Seq<Seq<char>>) -> Option<Seq<Seq<char>>> {
    if ws.len() >= 1 && file_stem(ws[0]) == Some("help"@) {
        help_topic_choices(ws.drop_first())
    } else {
        None
    }
}

/// The argument list that a request line hands to the command parser: its
/// words, with `--` after the first one when a later word starts with '-'.
pub open spec fn dashed_args(ws: Seq<Seq<char>>) -> Seq<Seq<char>> {
    if has_dash_arg(ws) {
        seq![ws[0], "--"@] + ws.drop_first()
    } else {
        ws
    }
}

} // verus!

verus! {

fn parse_mode(w: &Vec<char>) -> (r: Option<ButtonMode>)
    ensures
        r == mode_of(w@),
{
    if chars_eq(w, &chars_of("single")) {
        Some(ButtonMode::Single)
    } else if chars_eq(w, &chars_of("double")) {
        Some(ButtonMode::Double)
    } else if chars_eq(w, &chars_of("long")) {
        Some(ButtonMode::Long)
    } else {
        None
    }
}

fn word_chars(args: &Vec<String>, i: usize) -> (w: Vec<char>)
    requires
        i < args@.len(),
    ensures
        w@ == views(args@)[i as int],
{
    chars_of(args[i].as_str())
}

fn get_of_index(k: usize) -> (g: GetCmds)
    requires
        k < 36,
        k != 27,
        k != 28,
    ensures
        get_index(g) == k,
{
    match k {
        0 => GetCmds::Version,
        1 => GetCmds::Model,
        2 => GetCmds::FirmwareVersion,
        3 => GetCmds::Battery,
        4 => GetCmds::BatteryI,
        5 => GetCmds::BatteryV,
        6 => GetCmds::BatteryKeepInput,
        7 => GetCmds::BatteryLedAmount,
        8 => GetCmds::BatteryPowerPlugged,
        9 => GetCmds::BatteryAllowCharging,
        10 => GetCmds::BatteryChargingRange,
        11 => GetCmds::BatteryCharging,
        12 => GetCmds::BatteryInputProtectEnabled,
        13 => GetCmds::BatteryOutputEnabled,
        14 => GetCmds::FullChargeDuration,
        15 => GetCmds::SystemTime,
        16 => GetCmds::RtcAddr,
        17 => GetCmds::RtcTime,
        18 => GetCmds::RtcTimeList,
        19 => GetCmds::RtcAlarmFlag,
        20 => GetCmds::RtcAlarmTime,
        21 => GetCmds::RtcAlarmTimeList,
        22 => GetCmds::RtcAlarmEnabled,
        23 => GetCmds::RtcAdjustPpm,
        24 => GetCmds::AlarmRepeat,
        25 => GetCmds::SafeShutdownLevel,
        26 => GetCmds::SafeShutdownDelay,
        29 => GetCmds::AutoPowerOn,
        30 => GetCmds::AuthUsername,
        31 => GetCmds::AntiMistouch,
        32 => GetCmds::SoftPoweroff,
        33 => GetCmds::SoftPoweroffShell,
        34 => GetCmds::Temperature,
        _ => GetCmds::InputProtect,
    }
}

/// The query asked by the words of `args` from `start` on.
fn parse_get(args: &Vec<String>, start: usize) -> (r: Option<GetCmds>)
    requires
        start <= args@.len(),
    ensures
        match r {
            Some(g) => get_parses_to(views(args@).skip(start as int), g),
            None => forall|g: GetCmds| !get_parses_to(views(args@).skip(start as int), g),
        },
{
    let ghost rest = views(args@).skip(start as int);
    if start >= args.len() {
        return None;
    }
    let w = word_chars(args, start);
    assert(w@ == rest[0]);
    let names = get_name_list();
    let k = find_word(&names, &w);
    let n = args.len() - start;
    if k == 36 {
        return None;
    }
    if k == 27 || k == 28 {
        if n != 2 {
            return None;
        }
        let m = parse_mode(&word_chars(args, start + 1));
        assert(views(args@)[start + 1] == rest[1]);
        match m {
            Some(mode) => {
                if k == 27 {
                    Some(GetCmds::ButtonEnable { mode })
                } else {
                    Some(GetCmds::ButtonShell { mode })
                }
            },
            None => None,
        }
    } else {
        if n != 1 {
            return None;
        }
        Some(get_of_index(k))
    }
}

proof fn lemma_views_push(v: Seq<String>, x: String)
    ensures
        views(v.push(x)) == views(v).push(x@),
{
    assert(views(v.push(x)) =~= views(v).push(x@));
}

/// A copy of the words of `args` from `start` on.
fn words_from(args: &Vec<String>, start: usize) -> (v: Vec<String>)
    requires
        start <= args@.len(),
    ensures
        views(v@) == views(args@).skip(start as int),
{
    let mut v: Vec<String> = Vec::new();
    let mut i: usize = start;
    while i < args.len()
        invariant
            start <= i <= args@.len(),
            views(v@) == views(args@).subrange(start as int, i as int),
        decreases args@.len() - i,
    {
        let ghost old_v = v@;
        v.push(args[i].clone());
        proof {
            lemma_views_push(old_v, args@[i as int]);
        }
        i = i + 1;
        assert(views(v@) =~= views(args@).subrange(start as int, i as int));
    }
    assert(views(args@).subrange(start as int, i as int) =~= views(args@).skip(start as int));
    v
}

proof fn lemma_split_on_nonempty(s: Seq<char>, d: char)
    ensures
        split_on(s, d).len() >= 1,
    decreases s.len(),
{
    if s.len() > 0 {
        lemma_split_on_nonempty(s.drop_last(), d);
    }
}

/// The pieces of `w` between the characters `d` (as `str::split`).
pub fn split_chars(w: &Vec<char>, d: char) -> (r: Vec<String>)
    ensures
        views(r@) == split_on(w@, d),
{
    let mut done: Vec<String> = Vec::new();
    let mut cur: Vec<char> = Vec::new();
    let mut i: usize = 0;
    assert(w@.take(0) =~= Seq::<char>::empty());
    while i < w.len()
        invariant
            i <= w@.len(),
            views(done@).push(cur@) == split_on(w@.take(i as int), d),
        decreases w@.len() - i,
    {
        let ghost t = w@.take(i + 1);
        assert(t.drop_last() =~= w@.take(i as int));
        proof {
            lemma_split_on_nonempty(w@.take(i as int), d);
        }
        if w[i] == d {
            done.push(string_from_chars(&cur));
            cur = Vec::new();
            assert(views(done@).push(cur@) =~= split_on(t, d));
        } else {
            let ghost before = views(done@).push(cur@);
            cur.push(w[i]);
            assert(views(done@).push(cur@) =~= before.update(before.len() - 1, before.last().push(
                w@[i as int],
            )));
        }
        i = i + 1;
    }
    assert(w@.take(i as int) =~= w@);
    done.push(string_from_chars(&cur));
    done
}

/// The comma separated pieces of the words of `args` from `start` on, when
/// all of them are numbers.
fn parse_reals(args: &Vec<String>, start: usize) -> (r: Option<Vec<String>>)
    requires
        start <= args@.len(),
    ensures
        match r {
            Some(v) => all_real(split_all(views(args@).skip(start as int), ','))
                && views(v@) == split_all(views(args@).skip(start as int), ','),
            None => !all_real(split_all(views(args@).skip(start as int), ',')),
        },
{
    let ghost rest = views(args@).skip(start as int);
    let mut out: Vec<String> = Vec::new();
    let mut i: usize = start;
    assert(rest.take(0) =~= Seq::<Seq<char>>::empty());
    while i < args.len()
        invariant
            start <= i <= args@.len(),
            rest == views(args@).skip(start as int),
            views(out@) == split_all(rest.take(i - start), ','),
        decreases args@.len() - i,
    {
        let pieces = split_chars(&word_chars(args, i), ',');
        let ghost before = views(out@);
        let mut j: usize = 0;
        while j < pieces.len()
            invariant
                j <= pieces@.len(),
                views(out@) == before + views(pieces@).take(j as int),
            decreases pieces@.len() - j,
        {
            let ghost old_out = out@;
            out.push(pieces[j].clone());
            proof {
                lemma_views_push(old_out, pieces@[j as int]);
            }
            j = j + 1;
            assert(views(out@) =~= before + views(pieces@).take(j as int));
        }
        proof {
            let t = rest.take(i - start + 1);
            assert(t.drop_last() =~= rest.take(i - start));
            assert(t.last() == views(args@)[i as int]);
            assert(views(pieces@).take(j as int) =~= views(pieces@));
        }
        i = i + 1;
    }
    assert(rest.take(i - start) =~= rest);
    let mut k: usize = 0;
    while k < out.len()
        invariant
            k <= out@.len(),
            views(out@) == split_all(views(args@).skip(start as int), ','),
            forall|m: int| 0 <= m < k ==> is_real_text(#[trigger] views(out@)[m]),
        decreases out@.len() - k,
    {
        if !real_text_ok(&chars_of(out[k].as_str())) {
            assert(!is_real_text(views(out@)[k as int]));
            return None;
        }
        k = k + 1;
    }
    Some(out)
}

/// Some word after the first starts with '-'.
fn has_dash(args: &Vec<String>) -> (r: bool)
    ensures
        r == has_dash_arg(views(args@)),
{
    let ghost ws = views(args@);
    let mut i: usize = 1;
    while i < args.len()
        invariant
            1 <= i,
            ws == views(args@),
            forall|j: int| 1 <= j < i && j < ws.len() ==> !((#[trigger] ws[j]).len() > 0 && ws[j][0]
                == '-'),
        decreases args@.len() - i,
    {
        let w = word_chars(args, i);
        if w.len() > 0 && w[0] == '-' {
            assert(ws[i as int] == w@);
            return true;
        }
        i = i + 1;
    }
    false
}

} // verus!

verus! {

fn bool_arg_at(args: &Vec<String>, i: usize) -> (b: BoolArg)
    requires
        i < args@.len(),
    ensures
        b.enable.0 == bool_value_of(views(args@)[i as int]),
{
    BoolArg { enable: BoolValue::from(args[i].clone()) }
}

/// The command of kind `k` (its position in `cmd_names`) with the arguments
/// of `args` from `start` on.
fn parse_command(k: usize, args: &Vec<String>, start: usize, dashed: bool) -> (r: Result<Cmds, ()>)
    requires
        start <= args@.len(),
        k < 27,
    ensures
        match r {
            Ok(c) => cmd_index(c) == k && args_parse_to(c, views(args@).skip(start as int), dashed),
            Err(_) => forall|c: Cmds|
                cmd_index(c) == k ==> !args_parse_to(c, views(args@).skip(start as int), dashed),
        },
{
    let ghost rest = views(args@).skip(start as int);
    let n = args.len() - start;
    if k == 0 {
        if dashed {
            return Err(());
        }
        return match parse_get(args, start) {
            Some(g) => Ok(Cmds::Get(g)),
            None => Err(()),
        };
    }
    if k == 1 || k == 3 || k == 4 || k == 6 || k == 20 || k == 23 || k == 24 || k == 26 {
        if n != 1 {
            return Err(());
        }
        let b = bool_arg_at(args, start);
        assert(views(args@)[start as int] == rest[0]);
        return Ok(
            if k == 1 {
                Cmds::SetBatteryKeepInput(b)
            } else if k == 3 {
                Cmds::SetBatteryInputProtect(b)
            } else if k == 4 {
                Cmds::SetBatteryOutput(b)
            } else if k == 6 {
                Cmds::SetAllowCharging(b)
            } else if k == 20 {
                Cmds::SetAutoPowerOn(b)
            } else if k == 23 {
                Cmds::SetAntiMistouch(b)
            } else if k == 24 {
                Cmds::SetSoftPoweroff(b)
            } else {
                Cmds::SetInputProtect(b)
            },
        );
    }
    if k == 2 {
        return match parse_reals(args, start) {
            Some(v) => Ok(Cmds::SetBatteryChargingRange { range: v }),
            None => Err(()),
        };
    }
    if k == 5 || k == 7 {
        if n != 1 {
            return Err(());
        }
        let w = word_chars(args, start);
        assert(w@ == rest[0]);
        if k == 5 {
            return match parse_unsigned(&w, 0xffff_ffff_ffff_ffff) {
                Some(s) => Ok(Cmds::SetFullChargeDuration { seconds: s }),
                None => Err(()),
            };
        } else {
            return match parse_signed_in_range(&w, 255) {
                Some(a) => Ok(Cmds::SetRtcAddr { addr: a as u8 }),
                None => Err(()),
            };
        }
    }
    if k == 8 || k == 9 || k == 10 || k == 11 || k == 13 || k == 17 || k == 22 {
        if n != 0 {
            return Err(());
        }
        return Ok(
            if k == 8 {
                Cmds::RtcClearFlag
            } else if k == 9 {
                Cmds::RtcPi2rtc
            } else if k == 10 {
                Cmds::RtcRtc2pi
            } else if k == 11 {
                Cmds::RtcWeb
            } else if k == 13 {
                Cmds::RtcAlarmDisable
            } else if k == 17 {
                Cmds::RtcTestWake
            } else {
                Cmds::ForceShutdown
            },
        );
    }
    if k == 12 {
        if n != 2 {
            return Err(());
        }
        assert(views(args@)[start as int] == rest[0]);
        assert(views(args@)[start + 1] == rest[1]);
        let t = parse_offset_time(args[start].as_str());
        let w = parse_signed_in_range(&word_chars(args, start + 1), 255);
        return match (t, w) {
            (Some(t), Some(w)) => Ok(Cmds::RtcAlarmSet { datetime: t, weekdays: w as u8 }),
            _ => Err(()),
        };
    }
    if k == 14 || k == 15 || k == 16 {
        if n != 1 {
            return Err(());
        }
        assert(views(args@)[start as int] == rest[0]);
        if !real_text_ok(&word_chars(args, start)) {
            return Err(());
        }
        let t = args[start].clone();
        return Ok(
            if k == 14 {
                Cmds::RtcAdjustPpm { ppm: t }
            } else if k == 15 {
                Cmds::SetSafeShutdownLevel { level: t }
            } else {
                Cmds::SetSafeShutdownDelay { delay: t }
            },
        );
    }
    if k == 18 || k == 19 {
        if n < 1 || (k == 18 && n != 2) {
            return Err(());
        }
        assert(views(args@)[start as int] == rest[0]);
        let m = parse_mode(&word_chars(args, start));
        let mode = match m {
            Some(mode) => mode,
            None => {
                return Err(());
            },
        };
        if k == 18 {
            assert(views(args@)[start + 1] == rest[1]);
            let b = BoolValue::from(args[start + 1].clone());
            return Ok(Cmds::SetButtonEnable { mode, enable: b });
        } else {
            let shell = words_from(args, start + 1);
            assert(views(args@).skip(start + 1) =~= rest.drop_first());
            return Ok(Cmds::SetButtonShell { mode, shell });
        }
    }
    if k == 21 {
        if n > 2 {
            return Err(());
        }
        let username = if n >= 1 {
            assert(views(args@)[start as int] == rest[0]);
            Some(args[start].clone())
        } else {
            None
        };
        let password = if n >= 2 {
            assert(views(args@)[start + 1] == rest[1]);
            Some(args[start + 1].clone())
        } else {
            None
        };
        return Ok(Cmds::SetAuth { username, password });
    }
    let shell = words_from(args, start);
    Ok(Cmds::SetSoftPoweroffShell { shell })
}

/// The texts of `names`.
fn strings_of(names: &Vec<&str>) -> (v: Vec<String>)
    ensures
        views(v@) == strs_view(names@),
{
    let mut v: Vec<String> = Vec::new();
    let mut i: usize = 0;
    while i < names.len()
        invariant
            i <= names@.len(),
            views(v@) == strs_view(names@).take(i as int),
        decreases names@.len() - i,
    {
        let ghost old_v = v@;
        v.push(String::from_str(names[i]));
        proof {
            lemma_views_push(old_v, v@.last());
        }
        i = i + 1;
        assert(views(v@) =~= strs_view(names@).take(i as int));
    }
    assert(strs_view(names@).take(i as int) =~= strs_view(names@));
    v
}

/// The words that may follow the help topic made of the words of `args`
/// after the first (see `help_topic_choices`).
fn help_topic_words(args: &Vec<String>) -> (r: Option<Vec<String>>)
    requires
        args@.len() >= 1,
    ensures
        match help_topic_choices(views(args@).drop_first()) {
            Some(ch) => r matches Some(v) && views(v@) == ch,
            None => r is None,
        },
{
    let ghost topic = views(args@).drop_first();
    let n = args.len() - 1;
    let names = cmd_name_list();
    proof {
        reveal_strlit("help");
    }
    if n == 0 {
        let mut v = strings_of(&names);
        let ghost old_v = v@;
        v.push(String::from_str("help"));
        proof {
            lemma_views_push(old_v, v@.last());
        }
        return Some(v);
    }
    let w1 = word_chars(args, 1);
    assert(w1@ == topic[0]);
    let k1 = find_word(&names, &w1);
    if n == 1 {
        if k1 == 0 {
            let mut v = strings_of(&get_name_list());
            let ghost old_v = v@;
            v.push(String::from_str("help"));
            proof {
                lemma_views_push(old_v, v@.last());
            }
            return Some(v);
        }
        if k1 < 27 || chars_eq(&w1, &chars_of("help")) {
            let v: Vec<String> = Vec::new();
            assert(views(v@) =~= Seq::<Seq<char>>::empty());
            return Some(v);
        }
        return None;
    }
    if n == 2 && k1 == 0 {
        let w2 = word_chars(args, 2);
        assert(w2@ == topic[1]);
        let k2 = find_word(&get_name_list(), &w2);
        if k2 < 36 {
            let v: Vec<String> = Vec::new();
            assert(views(v@) =~= Seq::<Seq<char>>::empty());
            return Some(v);
        }
    }
    None
}

impl Cmds {
    /// The command given by the words `args` of a request (see
    /// `words_parse_to`); when they give none, whether they ask for help
    /// (`help_choices`).
    pub fn from_args(args: &Vec<String>) -> (r: Result<Cmds, CmdsError>)
        ensures
            match r {
                Ok(c) => words_parse_to(views(args@), c),
                Err(e) => (forall|c: Cmds| !words_parse_to(views(args@), c)) && match help_choices(
                    views(args@),
                ) {
                    Some(ch) => e matches CmdsError::Help(v) && views(v@) == ch,
                    None => e is Invalid,
                },
            },
    {
        let ghost ws = views(args@);
        if args.len() == 0 {
            return Err(CmdsError::Invalid);
        }
        let dashed = has_dash(args);
        let names = cmd_name_list();
        let first = word_chars(args, 0);
        match path_file_stem(&first) {
            Some(name) => {
                let k = find_word(&names, &name);
                assert(ws.skip(1) =~= ws.drop_first());
                proof {
                    reveal_strlit("help");
                }
                if k == 27 {
                    if chars_eq(&name, &chars_of("help")) {
                        return match help_topic_words(args) {
                            Some(v) => Err(CmdsError::Help(v)),
                            None => Err(CmdsError::Invalid),
                        };
                    }
                    return Err(CmdsError::Invalid);
                }
                proof {
                    lemma_cmd_word(k as int);
                    lemma_first_match_found(cmd_names(), name@);
                }
                match parse_command(k, args, 1, dashed) {
                    Ok(c) => Ok(c),
                    Err(_) => Err(CmdsError::Invalid),
                }
            },
            None => {
                if args.len() < 2 || dashed {
                    return Err(CmdsError::Invalid);
                }
                let k = find_word(&names, &word_chars(args, 1));
                if k == 27 {
                    return Err(CmdsError::Invalid);
                }
                match parse_command(k, args, 2, false) {
                    Ok(c) => Ok(c),
                    Err(_) => Err(CmdsError::Invalid),
                }
            },
        }
    }

    /// The command written in the request line `s`: its shell words as
    /// `shlex::split` gives them, read by `from_args`.
    pub fn from_str(s: &str) -> (r: Result<Cmds, CmdsError>)
        ensures
            match shlex_words(s@) {
                Some(ws) => match r {
                    Ok(c) => words_parse_to(ws, c),
                    Err(e) => (forall|c: Cmds| !words_parse_to(ws, c)) && match help_choices(ws) {
                        Some(ch) => e matches CmdsError::Help(v) && views(v@) == ch,
                        None => e is Invalid,
                    },
                },
                None => r matches Err(CmdsError::Invalid),
            },
    {
        match split_words(s) {
            Some(args) => Cmds::from_args(&args),
            None => Err(CmdsError::Invalid),
        }
    }
}

/// The argument list that the command parser is given for the request line
/// `s` (see `dashed_args`); `None` where `shlex::split` finds no words.
pub fn command_args(s: &str) -> (r: Option<Vec<String>>)
    ensures
        match shlex_words(s@) {
            Some(ws) => r matches Some(v) && views(v@) == dashed_args(ws),
            None => r is None,
        },
{
    match split_words(s) {
        None => None,
        Some(args) => {
            if !has_dash(&args) {
                return Some(args);
            }
            let ghost ws = views(args@);
            let mut v: Vec<String> = Vec::new();
            v.push(args[0].clone());
            v.push(String::from_str("--"));
            let rest = words_from(&args, 1);
            let ghost head = v@;
            proof {
                reveal_strlit("--");
                assert(views(head) =~= seq![ws[0], "--"@]);
            }
            let mut i: usize = 0;
            while i < rest.len()
                invariant
                    i <= rest@.len(),
                    views(v@) == views(head) + views(rest@).take(i as int),
                decreases rest@.len() - i,
            {
                let ghost old_v = v@;
                v.push(rest[i].clone());
                proof {
                    lemma_views_push(old_v, v@.last());
                }
                i = i + 1;
                assert(views(v@) =~= views(head) + views(rest@).take(i as int));
            }
            assert(views(rest@).take(i as int) =~= ws.drop_first());
            Some(v)
        },
    }
}

} // verus!

verus! {

/// No entry of `list` before position `i` is `w`.
spec fn none_before(list: Seq<Seq<char>>, w: Seq<char>, i: int) -> bool
    decreases i,
{
    if i <= 0 {
        true
    } else {
        list[i - 1] != w && none_before(list, w, i - 1)
    }
}

proof fn lemma_none_before(list: Seq<Seq<char>>, w: Seq<char>, i: int)
    requires
        0 <= i <= list.len(),
        none_before(list, w, i),
    ensures
        forall|j: int| 0 <= j < i ==> list[j] != w,
    decreases i,
{
    if i > 0 {
        lemma_none_before(list, w, i - 1);
    }
}

/// Each query word stands once in `get_names`, and does not start with a dash.
proof fn lemma_get_word(k: int)
    requires
        0 <= k < 36,
    ensures
        first_match(get_names(), get_names()[k]) == k,
        get_names()[k].len() > 0,
        get_names()[k][0] != '-',
{
    reveal_strlit("version");
    reveal_strlit("model");
    reveal_strlit("firmware_version");
    reveal_strlit("battery");
    reveal_strlit("battery_i");
    reveal_strlit("battery_v");
    reveal_strlit("battery_keep_input");
    reveal_strlit("battery_led_amount");
    reveal_strlit("battery_power_plugged");
    reveal_strlit("battery_allow_charging");
    reveal_strlit("battery_charging_range");
    reveal_strlit("battery_charging");
    reveal_strlit("battery_input_protect_enabled");
    reveal_strlit("battery_output_enabled");
    reveal_strlit("full_charge_duration");
    reveal_strlit("system_time");
    reveal_strlit("rtc_addr");
    reveal_strlit("rtc_time");
    reveal_strlit("rtc_time_list");
    reveal_strlit("rtc_alarm_flag");
    reveal_strlit("rtc_alarm_time");
    reveal_strlit("rtc_alarm_time_list");
    reveal_strlit("rtc_alarm_enabled");
    reveal_strlit("rtc_adjust_ppm");
    reveal_strlit("alarm_repeat");
    reveal_strlit("safe_shutdown_level");
    reveal_strlit("safe_shutdown_delay");
    reveal_strlit("button_enable");
    reveal_strlit("button_shell");
    reveal_strlit("auto_power_on");
    reveal_strlit("auth_username");
    reveal_strlit("anti_mistouch");
    reveal_strlit("soft_poweroff");
    reveal_strlit("soft_poweroff_shell");
    reveal_strlit("temperature");
    reveal_strlit("input_protect");
    assert("version"@.len() == 7);
    assert("model"@.len() == 5);
    assert("firmware_version"@.len() == 16);
    assert("battery"@.len() == 7);
    assert("battery_i"@.len() == 9);
    assert("battery_v"@.len() == 9);
    assert("battery_keep_input"@.len() == 18);
    assert("battery_led_amount"@.len() == 18);
    assert("battery_power_plugged"@.len() == 21);
    assert("battery_allow_charging"@.len() == 22);
    assert("battery_charging_range"@.len() == 22);
    assert("battery_charging"@.len() == 16);
    assert("battery_input_protect_enabled"@.len() == 29);
    assert("battery_output_enabled"@.len() == 22);
    assert("full_charge_duration"@.len() == 20);
    assert("system_time"@.len() == 11);
    assert("rtc_addr"@.len() == 8);
    assert("rtc_time"@.len() == 8);
    assert("rtc_time_list"@.len() == 13);
    assert("rtc_alarm_flag"@.len() == 14);
    assert("rtc_alarm_time"@.len() == 14);
    assert("rtc_alarm_time_list"@.len() == 19);
    assert("rtc_alarm_enabled"@.len() == 17);
    assert("rtc_adjust_ppm"@.len() == 14);
    assert("alarm_repeat"@.len() == 12);
    assert("safe_shutdown_level"@.len() == 19);
    assert("safe_shutdown_delay"@.len() == 19);
    assert("button_enable"@.len() == 13);
    assert("button_shell"@.len() == 12);
    assert("auto_power_on"@.len() == 13);
    assert("auth_username"@.len() == 13);
    assert("anti_mistouch"@.len() == 13);
    assert("soft_poweroff"@.len() == 13);
    assert("soft_poweroff_shell"@.len() == 19);
    assert("temperature"@.len() == 11);
    assert("input_protect"@.len() == 13);
    assert("version"@[0] != "battery"@[0]);
    assert("battery_i"@[8] != "battery_v"@[8]);
    assert("battery_keep_input"@[8] != "battery_led_amount"@[8]);
    assert("battery_allow_charging"@[8] != "battery_charging_range"@[8]);
    assert("firmware_version"@[0] != "battery_charging"@[0]);
    assert("battery_allow_charging"@[8] != "battery_output_enabled"@[8]);
    assert("battery_charging_range"@[8] != "battery_output_enabled"@[8]);
    assert("rtc_addr"@[4] != "rtc_time"@[4]);
    assert("rtc_alarm_flag"@[10] != "rtc_alarm_time"@[10]);
    assert("rtc_alarm_flag"@[5] != "rtc_adjust_ppm"@[5]);
    assert("rtc_alarm_time"@[5] != "rtc_adjust_ppm"@[5]);
    assert("rtc_alarm_time_list"@[0] != "safe_shutdown_level"@[0]);
    assert("rtc_alarm_time_list"@[0] != "safe_shutdown_delay"@[0]);
    assert("safe_shutdown_level"@[14] != "safe_shutdown_delay"@[14]);
    assert("rtc_time_list"@[0] != "button_enable"@[0]);
    assert("alarm_repeat"@[0] != "button_shell"@[0]);
    assert("rtc_time_list"@[0] != "auto_power_on"@[0]);
    assert("button_enable"@[0] != "auto_power_on"@[0]);
    assert("rtc_time_list"@[0] != "auth_username"@[0]);
    assert("button_enable"@[0] != "auth_username"@[0]);
    assert("auto_power_on"@[3] != "auth_username"@[3]);
    assert("rtc_time_list"@[0] != "anti_mistouch"@[0]);
    assert("button_enable"@[0] != "anti_mistouch"@[0]);
    assert("auto_power_on"@[1] != "anti_mistouch"@[1]);
    assert("auth_username"@[1] != "anti_mistouch"@[1]);
    assert("rtc_time_list"@[0] != "soft_poweroff"@[0]);
    assert("button_enable"@[0] != "soft_poweroff"@[0]);
    assert("auto_power_on"@[0] != "soft_poweroff"@[0]);
    assert("auth_username"@[0] != "soft_poweroff"@[0]);
    assert("anti_mistouch"@[0] != "soft_poweroff"@[0]);
    assert("rtc_alarm_time_list"@[0] != "soft_poweroff_shell"@[0]);
    assert("safe_shutdown_level"@[1] != "soft_poweroff_shell"@[1]);
    assert("safe_shutdown_delay"@[1] != "soft_poweroff_shell"@[1]);
    assert("system_time"@[0] != "temperature"@[0]);
    assert("rtc_time_list"@[0] != "input_protect"@[0]);
    assert("button_enable"@[0] != "input_protect"@[0]);
    assert("auto_power_on"@[0] != "input_protect"@[0]);
    assert("auth_username"@[0] != "input_protect"@[0]);
    assert("anti_mistouch"@[0] != "input_protect"@[0]);
    assert("soft_poweroff"@[0] != "input_protect"@[0]);
    let list = get_names();
    assert(list[0] == "version"@);
    assert(list[1] == "model"@);
    assert(list[2] == "firmware_version"@);
    assert(list[3] == "battery"@);
    assert(list[4] == "battery_i"@);
    assert(list[5] == "battery_v"@);
    assert(list[6] == "battery_keep_input"@);
    assert(list[7] == "battery_led_amount"@);
    assert(list[8] == "battery_power_plugged"@);
    assert(list[9] == "battery_allow_charging"@);
    assert(list[10] == "battery_charging_range"@);
    assert(list[11] == "battery_charging"@);
    assert(list[12] == "battery_input_protect_enabled"@);
    assert(list[13] == "battery_output_enabled"@);
    assert(list[14] == "full_charge_duration"@);
    assert(list[15] == "system_time"@);
    assert(list[16] == "rtc_addr"@);
    assert(list[17] == "rtc_time"@);
    assert(list[18] == "rtc_time_list"@);
    assert(list[19] == "rtc_alarm_flag"@);
    assert(list[20] == "rtc_alarm_time"@);
    assert(list[21] == "rtc_alarm_time_list"@);
    assert(list[22] == "rtc_alarm_enabled"@);
    assert(list[23] == "rtc_adjust_ppm"@);
    assert(list[24] == "alarm_repeat"@);
    assert(list[25] == "safe_shutdown_level"@);
    assert(list[26] == "safe_shutdown_delay"@);
    assert(list[27] == "button_enable"@);
    assert(list[28] == "button_shell"@);
    assert(list[29] == "auto_power_on"@);
    assert(list[30] == "auth_username"@);
    assert(list[31] == "anti_mistouch"@);
    assert(list[32] == "soft_poweroff"@);
    assert(list[33] == "soft_poweroff_shell"@);
    assert(list[34] == "temperature"@);
    assert(list[35] == "input_protect"@);
    let w = list[k];
    reveal_with_fuel(none_before, 37);
    if k == 0 {
        assert(w == "version"@);
        assert(none_before(list, w, 0));
    } else if k == 1 {
        assert(w == "model"@);
        assert(none_before(list, w, 1));
    } else if k == 2 {
        assert(w == "firmware_version"@);
        assert(none_before(list, w, 2));
    } else if k == 3 {
        assert(w == "battery"@);
        assert(none_before(list, w, 3));
    } else if k == 4 {
        assert(w == "battery_i"@);
        assert(none_before(list, w, 4));
    } else if k == 5 {
        assert(w == "battery_v"@);
        assert(none_before(list, w, 5));
    } else if k == 6 {
        assert(w == "battery_keep_input"@);
        assert(none_before(list, w, 6));
    } else if k == 7 {
        assert(w == "battery_led_amount"@);
        assert(none_before(list, w, 7));
    } else if k == 8 {
        assert(w == "battery_power_plugged"@);
        assert(none_before(list, w, 8));
    } else if k == 9 {
        assert(w == "battery_allow_charging"@);
        assert(none_before(list, w, 9));
    } else if k == 10 {
        assert(w == "battery_charging_range"@);
        assert(none_before(list, w, 10));
    } else if k == 11 {
        assert(w == "battery_charging"@);
        assert(none_before(list, w, 11));
    } else if k == 12 {
        assert(w == "battery_input_protect_enabled"@);
        assert(none_before(list, w, 12));
    } else if k == 13 {
        assert(w == "battery_output_enabled"@);
        assert(none_before(list, w, 13));
    } else if k == 14 {
        assert(w == "full_charge_duration"@);
        assert(none_before(list, w, 14));
    } else if k == 15 {
        assert(w == "system_time"@);
        assert(none_before(list, w, 15));
    } else if k == 16 {
        assert(w == "rtc_addr"@);
        assert(none_before(list, w, 16));
    } else if k == 17 {
        assert(w == "rtc_time"@);
        assert(none_before(list, w, 17));
    } else if k == 18 {
        assert(w == "rtc_time_list"@);
        assert(none_before(list, w, 18));
    } else if k == 19 {
        assert(w == "rtc_alarm_flag"@);
        assert(none_before(list, w, 19));
    } else if k == 20 {
        assert(w == "rtc_alarm_time"@);
        assert(none_before(list, w, 20));
    } else if k == 21 {
        assert(w == "rtc_alarm_time_list"@);
        assert(none_before(list, w, 21));
    } else if k == 22 {
        assert(w == "rtc_alarm_enabled"@);
        assert(none_before(list, w, 22));
    } else if k == 23 {
        assert(w == "rtc_adjust_ppm"@);
        assert(none_before(list, w, 23));
    } else if k == 24 {
        assert(w == "alarm_repeat"@);
        assert(none_before(list, w, 24));
    } else if k == 25 {
        assert(w == "safe_shutdown_level"@);
        assert(none_before(list, w, 25));
    } else if k == 26 {
        assert(w == "safe_shutdown_delay"@);
        assert(none_before(list, w, 26));
    } else if k == 27 {
        assert(w == "button_enable"@);
        assert(none_before(list, w, 27));
    } else if k == 28 {
        assert(w == "button_shell"@);
        assert(none_before(list, w, 28));
    } else if k == 29 {
        assert(w == "auto_power_on"@);
        assert(none_before(list, w, 29));
    } else if k == 30 {
        assert(w == "auth_username"@);
        assert(none_before(list, w, 30));
    } else if k == 31 {
        assert(w == "anti_mistouch"@);
        assert(none_before(list, w, 31));
    } else if k == 32 {
        assert(w == "soft_poweroff"@);
        assert(none_before(list, w, 32));
    } else if k == 33 {
        assert(w == "soft_poweroff_shell"@);
        assert(none_before(list, w, 33));
    } else if k == 34 {
        assert(w == "temperature"@);
        assert(none_before(list, w, 34));
    } else if k == 35 {
        assert(w == "input_protect"@);
        assert(none_before(list, w, 35));
    }
    lemma_none_before(list, w, k);
    lemma_first_match(list, w, k);
}

/// Each command word stands once in `cmd_names`, and holds no '/' and no '.'.
proof fn lemma_cmd_word(k: int)
    requires
        0 <= k < 27,
    ensures
        first_match(cmd_names(), cmd_names()[k]) == k,
        cmd_names()[k].len() > 0,
        cmd_names()[k][0] != '-',
        cmd_names()[k] != "help"@,
        forall|i: int| 0 <= i < cmd_names()[k].len() ==> #[trigger] cmd_names()[k][i] != '/' && cmd_names()[k][i] != '.',
{
    reveal_strlit("get");
    reveal_strlit("set_battery_keep_input");
    reveal_strlit("set_battery_charging_range");
    reveal_strlit("set_battery_input_protect");
    reveal_strlit("set_battery_output");
    reveal_strlit("set_full_charge_duration");
    reveal_strlit("set_allow_charging");
    reveal_strlit("set_rtc_addr");
    reveal_strlit("rtc_clear_flag");
    reveal_strlit("rtc_pi2rtc");
    reveal_strlit("rtc_rtc2pi");
    reveal_strlit("rtc_web");
    reveal_strlit("rtc_alarm_set");
    reveal_strlit("rtc_alarm_disable");
    reveal_strlit("rtc_adjust_ppm");
    reveal_strlit("set_safe_shutdown_level");
    reveal_strlit("set_safe_shutdown_delay");
    reveal_strlit("rtc_test_wake");
    reveal_strlit("set_button_enable");
    reveal_strlit("set_button_shell");
    reveal_strlit("set_auto_power_on");
    reveal_strlit("set_auth");
    reveal_strlit("force_shutdown");
    reveal_strlit("set_anti_mistouch");
    reveal_strlit("set_soft_poweroff");
    reveal_strlit("set_soft_poweroff_shell");
    reveal_strlit("set_input_protect");
    assert("get"@.len() == 3);
    assert("set_battery_keep_input"@.len() == 22);
    assert("set_battery_charging_range"@.len() == 26);
    assert("set_battery_input_protect"@.len() == 25);
    assert("set_battery_output"@.len() == 18);
    assert("set_full_charge_duration"@.len() == 24);
    assert("set_allow_charging"@.len() == 18);
    assert("set_rtc_addr"@.len() == 12);
    assert("rtc_clear_flag"@.len() == 14);
    assert("rtc_pi2rtc"@.len() == 10);
    assert("rtc_rtc2pi"@.len() == 10);
    assert("rtc_web"@.len() == 7);
    assert("rtc_alarm_set"@.len() == 13);
    assert("rtc_alarm_disable"@.len() == 17);
    assert("rtc_adjust_ppm"@.len() == 14);
    assert("set_safe_shutdown_level"@.len() == 23);
    assert("set_safe_shutdown_delay"@.len() == 23);
    assert("rtc_test_wake"@.len() == 13);
    assert("set_button_enable"@.len() == 17);
    assert("set_button_shell"@.len() == 16);
    assert("set_auto_power_on"@.len() == 17);
    assert("set_auth"@.len() == 8);
    assert("force_shutdown"@.len() == 14);
    assert("set_anti_mistouch"@.len() == 17);
    assert("set_soft_poweroff"@.len() == 17);
    assert("set_soft_poweroff_shell"@.len() == 23);
    assert("set_input_protect"@.len() == 17);
    reveal_strlit("help");
    assert("help"@.len() == 4);
    assert("set_battery_output"@[4] != "set_allow_charging"@[4]);
    assert("rtc_pi2rtc"@[4] != "rtc_rtc2pi"@[4]);
    assert("rtc_clear_flag"@[4] != "rtc_adjust_ppm"@[4]);
    assert("set_safe_shutdown_level"@[18] != "set_safe_shutdown_delay"@[18]);
    assert("rtc_alarm_set"@[4] != "rtc_test_wake"@[4]);
    assert("rtc_alarm_disable"@[0] != "set_button_enable"@[0]);
    assert("rtc_alarm_disable"@[0] != "set_auto_power_on"@[0]);
    assert("set_button_enable"@[4] != "set_auto_power_on"@[4]);
    assert("rtc_clear_flag"@[0] != "force_shutdown"@[0]);
    assert("rtc_adjust_ppm"@[0] != "force_shutdown"@[0]);
    assert("rtc_alarm_disable"@[0] != "set_anti_mistouch"@[0]);
    assert("set_button_enable"@[4] != "set_anti_mistouch"@[4]);
    assert("set_auto_power_on"@[5] != "set_anti_mistouch"@[5]);
    assert("rtc_alarm_disable"@[0] != "set_soft_poweroff"@[0]);
    assert("set_button_enable"@[4] != "set_soft_poweroff"@[4]);
    assert("set_auto_power_on"@[4] != "set_soft_poweroff"@[4]);
    assert("set_anti_mistouch"@[4] != "set_soft_poweroff"@[4]);
    assert("set_safe_shutdown_level"@[5] != "set_soft_poweroff_shell"@[5]);
    assert("set_safe_shutdown_delay"@[5] != "set_soft_poweroff_shell"@[5]);
    assert("rtc_alarm_disable"@[0] != "set_input_protect"@[0]);
    assert("set_button_enable"@[4] != "set_input_protect"@[4]);
    assert("set_auto_power_on"@[4] != "set_input_protect"@[4]);
    assert("set_anti_mistouch"@[4] != "set_input_protect"@[4]);
    assert("set_soft_poweroff"@[4] != "set_input_protect"@[4]);
    let list = cmd_names();
    assert(list[0] == "get"@);
    assert(list[1] == "set_battery_keep_input"@);
    assert(list[2] == "set_battery_charging_range"@);
    assert(list[3] == "set_battery_input_protect"@);
    assert(list[4] == "set_battery_output"@);
    assert(list[5] == "set_full_charge_duration"@);
    assert(list[6] == "set_allow_charging"@);
    assert(list[7] == "set_rtc_addr"@);
    assert(list[8] == "rtc_clear_flag"@);
    assert(list[9] == "rtc_pi2rtc"@);
    assert(list[10] == "rtc_rtc2pi"@);
    assert(list[11] == "rtc_web"@);
    assert(list[12] == "rtc_alarm_set"@);
    assert(list[13] == "rtc_alarm_disable"@);
    assert(list[14] == "rtc_adjust_ppm"@);
    assert(list[15] == "set_safe_shutdown_level"@);
    assert(list[16] == "set_safe_shutdown_delay"@);
    assert(list[17] == "rtc_test_wake"@);
    assert(list[18] == "set_button_enable"@);
    assert(list[19] == "set_button_shell"@);
    assert(list[20] == "set_auto_power_on"@);
    assert(list[21] == "set_auth"@);
    assert(list[22] == "force_shutdown"@);
    assert(list[23] == "set_anti_mistouch"@);
    assert(list[24] == "set_soft_poweroff"@);
    assert(list[25] == "set_soft_poweroff_shell"@);
    assert(list[26] == "set_input_protect"@);
    let w = list[k];
    reveal_with_fuel(none_before, 28);
    if k == 0 {
        assert(w == "get"@);
        assert(none_before(list, w, 0));
    } else if k == 1 {
        assert(w == "set_battery_keep_input"@);
        assert(none_before(list, w, 1));
    } else if k == 2 {
        assert(w == "set_battery_charging_range"@);
        assert(none_before(list, w, 2));
    } else if k == 3 {
        assert(w == "set_battery_input_protect"@);
        assert(none_before(list, w, 3));
    } else if k == 4 {
        assert(w == "set_battery_output"@);
        assert(none_before(list, w, 4));
    } else if k == 5 {
        assert(w == "set_full_charge_duration"@);
        assert(none_before(list, w, 5));
    } else if k == 6 {
        assert(w == "set_allow_charging"@);
        assert(none_before(list, w, 6));
    } else if k == 7 {
        assert(w == "set_rtc_addr"@);
        assert(none_before(list, w, 7));
    } else if k == 8 {
        assert(w == "rtc_clear_flag"@);
        assert(none_before(list, w, 8));
    } else if k == 9 {
        assert(w == "rtc_pi2rtc"@);
        assert(none_before(list, w, 9));
    } else if k == 10 {
        assert(w == "rtc_rtc2pi"@);
        assert(none_before(list, w, 10));
    } else if k == 11 {
        assert(w == "rtc_web"@);
        assert(none_before(list, w, 11));
    } else if k == 12 {
        assert(w == "rtc_alarm_set"@);
        assert(none_before(list, w, 12));
    } else if k == 13 {
        assert(w == "rtc_alarm_disable"@);
        assert(none_before(list, w, 13));
    } else if k == 14 {
        assert(w == "rtc_adjust_ppm"@);
        assert(none_before(list, w, 14));
    } else if k == 15 {
        assert(w == "set_safe_shutdown_level"@);
        assert(none_before(list, w, 15));
    } else if k == 16 {
        assert(w == "set_safe_shutdown_delay"@);
        assert(none_before(list, w, 16));
    } else if k == 17 {
        assert(w == "rtc_test_wake"@);
        assert(none_before(list, w, 17));
    } else if k == 18 {
        assert(w == "set_button_enable"@);
        assert(none_before(list, w, 18));
    } else if k == 19 {
        assert(w == "set_button_shell"@);
        assert(none_before(list, w, 19));
    } else if k == 20 {
        assert(w == "set_auto_power_on"@);
        assert(none_before(list, w, 20));
    } else if k == 21 {
        assert(w == "set_auth"@);
        assert(none_before(list, w, 21));
    } else if k == 22 {
        assert(w == "force_shutdown"@);
        assert(none_before(list, w, 22));
    } else if k == 23 {
        assert(w == "set_anti_mistouch"@);
        assert(none_before(list, w, 23));
    } else if k == 24 {
        assert(w == "set_soft_poweroff"@);
        assert(none_before(list, w, 24));
    } else if k == 25 {
        assert(w == "set_soft_poweroff_shell"@);
        assert(none_before(list, w, 25));
    } else if k == 26 {
        assert(w == "set_input_protect"@);
        assert(none_before(list, w, 26));
    }
    lemma_none_before(list, w, k);
    lemma_first_match(list, w, k);
}


proof fn lemma_mode_word(m: ButtonMode)
    ensures
        mode_of(mode_name(m)) == Some(m),
        mode_name(m).len() > 0,
        mode_name(m)[0] != '-',
{
    reveal_strlit("single");
    reveal_strlit("double");
    reveal_strlit("long");
    assert("single"@.len() == 6);
    assert("double"@.len() == 6);
    assert("long"@.len() == 4);
    assert("single"@[0] != "double"@[0]);
}

/// The words of the query `g`: `get`, the query's word and, for the button
/// queries, the name of the mode.
pub open spec fn query_words(g: GetCmds) -> Seq<Seq<char>> {
    match g {
        GetCmds::ButtonEnable { mode } => seq!["get"@, get_names()[get_index(g)], mode_name(mode)],
        GetCmds::ButtonShell { mode } => seq!["get"@, get_names()[get_index(g)], mode_name(mode)],
        _ => seq!["get"@, get_names()[get_index(g)]],
    }
}

/// The words of a query (`get`, its word and, for the button queries, the
/// mode) give that query and no other command.
pub proof fn law_query_words(g: GetCmds, c: Cmds)
    ensures
        words_parse_to(query_words(g), c) <==> c == Cmds::Get(g),
{
    let ws = query_words(g);
    reveal_strlit("get");
    assert("get"@.len() == 3);
    assert forall|k: int| 0 <= k < "get"@.len() implies "get"@[k] != '/' && "get"@[k] != '.' by {
        if k == 0 {
        } else if k == 1 {
        } else {
        }
    }
    lemma_plain_name_stem("get"@);
    assert(cmd_names()[0] == "get"@);
    assert(first_match(cmd_names(), "get"@) == 0);
    lemma_get_word(get_index(g));
    let name = get_names()[get_index(g)];
    let mode = match g {
        GetCmds::ButtonEnable { mode } => mode,
        GetCmds::ButtonShell { mode } => mode,
        _ => ButtonMode::Single,
    };
    lemma_mode_word(mode);
    assert(ws[0] == "get"@ && ws[1] == name);
    assert(!has_dash_arg(ws)) by {
        if has_dash_arg(ws) {
            let i = choose|i: int| 1 <= i < ws.len() && (#[trigger] ws[i]).len() > 0 && ws[i][0] == '-';
            if i == 2 {
                assert(ws[2] == mode_name(mode));
            }
        }
    }
    let rest = ws.drop_first();
    assert(rest[0] == name);
    if g is ButtonEnable || g is ButtonShell {
        assert(rest.len() == 2 && rest[1] == mode_name(mode));
    } else {
        assert(rest.len() == 1);
    }
    if c == Cmds::Get(g) {
        assert(get_parses_to(rest, g));
    }
    if words_parse_to(ws, c) {
        assert(cmd_index(c) == 0);
        if let Cmds::Get(g2) = c {
            assert(get_parses_to(rest, g2));
            assert(get_index(g2) == get_index(g));
        }
    }
}

/// A command that takes no argument is given by its word alone, and no
/// other command is.
pub proof fn law_bare_command_word(c: Cmds, other: Cmds)
    requires
        c is RtcClearFlag || c is RtcPi2rtc || c is RtcRtc2pi || c is RtcWeb || c is RtcAlarmDisable
            || c is RtcTestWake || c is ForceShutdown,
    ensures
        words_parse_to(seq![cmd_names()[cmd_index(c)]], other) <==> other == c,
{
    let ws = seq![cmd_names()[cmd_index(c)]];
    lemma_cmd_word(cmd_index(c));
    lemma_plain_name_stem(ws[0]);
    assert(!has_dash_arg(ws));
    assert(ws.drop_first() =~= Seq::<Seq<char>>::empty());
}

/// The value of an on/off command; `None` for the other commands.
pub open spec fn switch_arg(c: Cmds) -> Option<bool> {
    match c {
        Cmds::SetBatteryKeepInput(b) => Some(b.enable.0),
        Cmds::SetBatteryInputProtect(b) => Some(b.enable.0),
        Cmds::SetBatteryOutput(b) => Some(b.enable.0),
        Cmds::SetAllowCharging(b) => Some(b.enable.0),
        Cmds::SetAutoPowerOn(b) => Some(b.enable.0),
        Cmds::SetAntiMistouch(b) => Some(b.enable.0),
        Cmds::SetSoftPoweroff(b) => Some(b.enable.0),
        Cmds::SetInputProtect(b) => Some(b.enable.0),
        _ => None,
    }
}

/// The word of an on/off command and one value word give that command with
/// the value that the word reads as, and nothing else.
pub proof fn law_switch_command_words(c: Cmds, v: Seq<char>, other: Cmds)
    requires
        switch_arg(c) is Some,
    ensures
        words_parse_to(seq![cmd_names()[cmd_index(c)], v], other) <==> cmd_index(other) == cmd_index(c)
            && switch_arg(other) == Some(bool_value_of(v)),
{
    let ws = seq![cmd_names()[cmd_index(c)], v];
    lemma_cmd_word(cmd_index(c));
    lemma_plain_name_stem(ws[0]);
    assert(ws.drop_first() =~= seq![v]);
}

} // verus!
