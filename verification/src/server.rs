//! What the server answers to a request line: which requests are help or
//! invalid, how a query or a command is reported, and the commands that only
//! change the configuration.

use vstd::prelude::*;

use crate::cmd_parse::{shlex_words, split_chars, split_on, words_parse_to};
use crate::cmds::{ButtonMode, Cmds, GetCmds, Response};
use crate::config::{opt_view, PiSugarConfig};
use crate::model::{led_amount_of, model_name, Model};
use crate::text::{
    append_chars, append_str, bool_text, bool_to_string, chars_of, decimal,
    join_with, string_from_chars, u64_to_string, views,
};

verus! {

/// A request line, as the server takes it.
pub enum Request {
    /// The request asks for the help text.
    Help,
    /// The request is no command.
    Invalid,
    /// The request is this command.
    Command(Cmds),
}

pub open spec fn starts_with(s: Seq<char>, p: Seq<char>) -> bool {
    s.len() >= p.len() && s.take(p.len() as int) == p
}

/// A line starting with `help` asks for help; any other line is the command
/// that `Cmds::from_str` reads in it, or invalid.
pub fn classify_request(req: &str) -> (r: Request)
    ensures
        starts_with(req@, "help"@) ==> r is Help,
        !starts_with(req@, "help"@) ==> match shlex_words(req@) {
            Some(ws) => match r {
                Request::Command(c) => words_parse_to(ws, c),
                Request::Invalid => forall|c: Cmds| !words_parse_to(ws, c),
                Request::Help => false,
            },
            None => r is Invalid,
        },
{
    let c = chars_of(req);
    let h = chars_of("help");
    proof {
        reveal_strlit("help");
    }
    let mut is_help = c.len() >= 4;
    let mut i: usize = 0;
    while i < 4 && is_help
        invariant
            h@ == "help"@,
            h@.len() == 4,
            i <= 4,
            is_help ==> c@.len() >= 4 && forall|k: int| 0 <= k < i ==> c@[k] == h@[k],
            !is_help ==> !starts_with(c@, h@),
        decreases 4 - i,
    {
        if c[i] != h[i] {
            assert(c@.take(4)[i as int] == c@[i as int]);
            is_help = false;
        }
        i = i + 1;
    }
    if is_help {
        assert(c@.take(4) =~= h@);
        return Request::Help;
    }
    match Cmds::from_str(req) {
        Ok(cmd) => Request::Command(cmd),
        Err(_) => Request::Invalid,
    }
}

/// The words of a request line between single spaces (as `str::split(' ')`).
pub fn request_parts(req: &str) -> (parts: Vec<String>)
    ensures
        views(parts@) == split_on(req@, ' '),
{
    split_chars(&chars_of(req), ' ')
}

/// The answer to a line that is no command.
pub fn invalid_response() -> (r: Response)
    ensures
        r.cmd is None,
        r.extras@.len() == 0,
        r.result matches Err(e) && e@ == "Invalid request."@,
{
    Response { cmd: None, extras: Vec::new(), result: Err(String::from_str("Invalid request.")) }
}

/// The answer to a help request, with the help text.
pub fn help_response(text: String) -> (r: Response)
    ensures
        r.cmd is None,
        r.extras@.len() == 0,
        r.result matches Ok(Some(t)) && t@ == text@,
{
    Response { cmd: None, extras: Vec::new(), result: Ok(Some(text)) }
}

pub open spec fn answer_view(a: Result<String, String>) -> Result<Seq<char>, Seq<char>> {
    match a {
        Ok(v) => Ok(v@),
        Err(e) => Err(e@),
    }
}

pub open spec fn result_view(r: Result<Option<String>, String>) -> Result<Option<Seq<char>>, Seq<char>> {
    match r {
        Ok(Some(v)) => Ok(Some(v@)),
        Ok(None) => Ok(None),
        Err(e) => Err(e@),
    }
}

/// The answer to the query `g` of the request with the space separated
/// `parts`: named by the query word; `button_shell` repeats the mode as an
/// extra word and `button_enable` puts it before the value.
pub fn get_response(parts: &Vec<String>, g: GetCmds, answer: Result<String, String>) -> (r: Response)
    requires
        parts@.len() >= 2,
        (g is ButtonEnable || g is ButtonShell) ==> parts@.len() >= 3,
    ensures
        r.cmd matches Some(c) && c@ == parts@[1]@,
        match g {
            GetCmds::ButtonShell { .. } => views(r.extras@) == seq![parts@[2]@] && result_view(
                r.result,
            ) == match answer_view(answer) {
                Ok(v) => Ok(Some(v)),
                Err(e) => Err(e),
            },
            GetCmds::ButtonEnable { .. } => r.extras@.len() == 0 && result_view(r.result)
                == match answer_view(answer) {
                Ok(v) => Ok(Some(parts@[2]@ + " "@ + v)),
                Err(e) => Err(e),
            },
            _ => r.extras@.len() == 0 && result_view(r.result) == match answer_view(answer) {
                Ok(v) => Ok(Some(v)),
                Err(e) => Err(e),
            },
        },
{
    let cmd = Some(parts[1].clone());
    match g {
        GetCmds::ButtonShell { .. } => {
            let mut extras: Vec<String> = Vec::new();
            extras.push(parts[2].clone());
            assert(views(extras@) =~= seq![parts@[2]@]);
            let result = match answer {
                Ok(v) => Ok(Some(v)),
                Err(e) => Err(e),
            };
            Response { cmd, extras, result }
        },
        GetCmds::ButtonEnable { .. } => {
            let result = match answer {
                Ok(v) => {
                    let mut t = chars_of(parts[2].as_str());
                    append_str(&mut t, " ");
                    append_chars(&mut t, &chars_of(v.as_str()));
                    Ok(Some(string_from_chars(&t)))
                },
                Err(e) => Err(e),
            };
            Response { cmd, extras: Vec::new(), result }
        },
        _ => {
            let result = match answer {
                Ok(v) => Ok(Some(v)),
                Err(e) => Err(e),
            };
            Response { cmd, extras: Vec::new(), result }
        },
    }
}

/// The answer to a command of the request with the space separated `parts`:
/// named by its first word.
pub fn set_response(parts: &Vec<String>, result: Result<Option<String>, String>) -> (r: Response)
    requires
        parts@.len() >= 1,
    ensures
        r.cmd matches Some(c) && c@ == parts@[0]@,
        r.extras@.len() == 0,
        result_view(r.result) == result_view(result),
{
    Response { cmd: Some(parts[0].clone()), extras: Vec::new(), result }
}

/// The success message of a wake-up test started by the command `word`.
pub fn test_wake_message(word: &String) -> (s: String)
    ensures
        s@ == word@ + ": wakeup after 1 min 30 sec"@,
{
    let mut t = chars_of(word.as_str());
    append_str(&mut t, ": wakeup after 1 min 30 sec");
    string_from_chars(&t)
}

pub open spec fn hex_digit(d: int) -> char {
    if d < 10 {
        (('0' as int) + d) as char
    } else {
        (('a' as int) + d - 10) as char
    }
}

/// `0x` and two lower case hex digits, as `format!("0x{:02x}", a)`.
pub open spec fn hex_byte_text(a: u8) -> Seq<char> {
    seq!['0', 'x', hex_digit(a as int / 16), hex_digit(a as int % 16)]
}

fn hex_digit_char(d: u8) -> (c: char)
    requires
        d < 16,
    ensures
        c == hex_digit(d as int),
{
    let table: [char; 16] = [
        '0',
        '1',
        '2',
        '3',
        '4',
        '5',
        '6',
        '7',
        '8',
        '9',
        'a',
        'b',
        'c',
        'd',
        'e',
        'f',
    ];
    let c = table[d as usize];
    assert(c == hex_digit(d as int)) by {
        assert(table@ =~= seq![
            '0',
            '1',
            '2',
            '3',
            '4',
            '5',
            '6',
            '7',
            '8',
            '9',
            'a',
            'b',
            'c',
            'd',
            'e',
            'f',
        ]);
    }
    c
}

/// An I2C address as the server reports it.
pub fn hex_byte(a: u8) -> (s: String)
    ensures
        s@ == hex_byte_text(a),
{
    let v = vec!['0', 'x', hex_digit_char(a / 16), hex_digit_char(a % 16)];
    assert(v@ =~= hex_byte_text(a));
    string_from_chars(&v)
}

pub open spec fn bool_or(b: Option<bool>, d: bool) -> bool {
    match b {
        Some(v) => v,
        None => d,
    }
}

pub open spec fn text_or_empty(s: Option<String>) -> Seq<char> {
    match s {
        Some(v) => v@,
        None => Seq::empty(),
    }
}

/// The answer to the queries that the model and the configuration settle.
pub open spec fn config_answer_text(c: PiSugarConfig, model: Model, g: GetCmds) -> Option<Seq<char>> {
    match g {
        GetCmds::Model => Some(model_name(model)),
        GetCmds::BatteryLedAmount => Some(decimal(led_amount_of(model) as nat)),
        GetCmds::FullChargeDuration => Some(
            match c.full_charge_duration {
                Some(d) => decimal(d as nat),
                None => Seq::empty(),
            },
        ),
        GetCmds::AlarmRepeat => Some(decimal(c.auto_wake_repeat as nat)),
        GetCmds::ButtonEnable { mode } => Some(bool_text(c.enable_of(mode))),
        GetCmds::ButtonShell { mode } => Some(c.shell_of(mode)),
        GetCmds::AutoPowerOn => Some(bool_text(bool_or(c.auto_power_on, false))),
        GetCmds::AuthUsername => Some(text_or_empty(c.auth_user)),
        GetCmds::AntiMistouch => Some(bool_text(bool_or(c.anti_mistouch, true))),
        GetCmds::SoftPoweroff => Some(bool_text(bool_or(c.soft_poweroff, false))),
        GetCmds::SoftPoweroffShell => Some(text_or_empty(c.soft_poweroff_shell)),
        _ => None,
    }
}

fn bool_or_exec(b: Option<bool>, d: bool) -> (r: bool)
    ensures
        r == bool_or(b, d),
{
    match b {
        Some(v) => v,
        None => d,
    }
}

fn text_or_empty_exec(s: &Option<String>) -> (r: String)
    ensures
        r@ == text_or_empty(*s),
{
    match s {
        Some(v) => v.clone(),
        None => String::new(),
    }
}

/// The answer to `g` when the model and the configuration settle it
/// (`config_answer_text`); `None` when the chip, the clock or a real-valued
/// setting has to be read.
pub fn config_answer(config: &PiSugarConfig, model: Model, g: GetCmds) -> (r: Option<String>)
    ensures
        match config_answer_text(*config, model, g) {
            Some(t) => r matches Some(s) && s@ == t,
            None => r is None,
        },
{
    match g {
        GetCmds::Model => Some(model.to_string()),
        GetCmds::BatteryLedAmount => Some(u64_to_string(model.led_amount() as u64)),
        GetCmds::FullChargeDuration => Some(
            match config.full_charge_duration {
                Some(d) => u64_to_string(d),
                None => String::new(),
            },
        ),
        GetCmds::AlarmRepeat => Some(u64_to_string(config.auto_wake_repeat as u64)),
        GetCmds::ButtonEnable { mode } => Some(bool_to_string(config.button_enable(mode))),
        GetCmds::ButtonShell { mode } => Some(config.button_shell(mode)),
        GetCmds::AutoPowerOn => Some(bool_to_string(bool_or_exec(config.auto_power_on, false))),
        GetCmds::AuthUsername => Some(text_or_empty_exec(&config.auth_user)),
        GetCmds::AntiMistouch => Some(bool_to_string(bool_or_exec(config.anti_mistouch, true))),
        GetCmds::SoftPoweroff => Some(bool_to_string(bool_or_exec(config.soft_poweroff, false))),
        GetCmds::SoftPoweroffShell => Some(text_or_empty_exec(&config.soft_poweroff_shell)),
        _ => None,
    }
}

/// How a command that only changes the configuration reports a failed save.
#[derive(Debug, PartialEq, Eq, Clone, Copy, Structural)]
pub enum ConfigSave {
    /// The save error is the answer.
    Required,
    /// A save error is logged; the command still succeeds.
    Lenient,
}

/// The configuration after a command that only changes the configuration
/// (the duration of full charge, the button settings, the login, the soft
/// poweroff script).
pub open spec fn config_command_applies(old: PiSugarConfig, new: PiSugarConfig, cmd: Cmds) -> bool {
    match cmd {
        Cmds::SetFullChargeDuration { seconds } => new == PiSugarConfig {
            full_charge_duration: Some(seconds),
            ..old
        },
        Cmds::SetButtonEnable { mode, enable } => new == old.with_enable(mode, enable.0),
        Cmds::SetButtonShell { mode, shell } => old.same_but_shell(new, mode) && new.shell_of(mode)
            == join_with(views(shell@), " "@),
        Cmds::SetAuth { username, password } => if username is Some && password is Some {
            opt_view(new.auth_user) == opt_view(username) && opt_view(new.auth_password) == opt_view(
                password,
            ) && new == (PiSugarConfig {
                auth_user: new.auth_user,
                auth_password: new.auth_password,
                ..old
            })
        } else {
            new == (PiSugarConfig { auth_user: None, auth_password: None, ..old })
        },
        Cmds::SetSoftPoweroffShell { shell } => new == (PiSugarConfig {
            soft_poweroff_shell: new.soft_poweroff_shell,
            ..old
        }) && if join_with(views(shell@), " "@).len() == 0 {
            new.soft_poweroff_shell is None
        } else {
            opt_view(new.soft_poweroff_shell) == Some(join_with(views(shell@), " "@))
        },
        _ => new == old,
    }
}

pub open spec fn config_command_save(cmd: Cmds) -> Option<ConfigSave> {
    match cmd {
        Cmds::SetFullChargeDuration { .. } => Some(ConfigSave::Required),
        Cmds::SetButtonEnable { .. } => Some(ConfigSave::Lenient),
        Cmds::SetButtonShell { .. } => Some(ConfigSave::Lenient),
        Cmds::SetAuth { .. } => Some(ConfigSave::Required),
        Cmds::SetSoftPoweroffShell { .. } => Some(ConfigSave::Required),
        _ => None,
    }
}

/// Apply a command that only changes the configuration, and say how its
/// save is reported; any other command leaves the configuration as it is
/// and gives `None`.
pub fn apply_config_command(config: &mut PiSugarConfig, cmd: &Cmds) -> (r: Option<ConfigSave>)
    ensures
        r == config_command_save(*cmd),
        config_command_applies(*old(config), *final(config), *cmd),
{
    match cmd {
        Cmds::SetFullChargeDuration { seconds } => {
            config.full_charge_duration = Some(*seconds);
            Some(ConfigSave::Required)
        },
        Cmds::SetButtonEnable { mode, enable } => {
            config.set_button_enable(*mode, enable.0);
            Some(ConfigSave::Lenient)
        },
        Cmds::SetButtonShell { mode, shell } => {
            config.set_button_shell(*mode, shell);
            Some(ConfigSave::Lenient)
        },
        Cmds::SetAuth { username, password } => {
            config.set_auth(username.clone(), password.clone());
            Some(ConfigSave::Required)
        },
        Cmds::SetSoftPoweroffShell { shell } => {
            config.set_soft_poweroff_shell(shell);
            Some(ConfigSave::Required)
        },
        _ => None,
    }
}

/// The result of a configuration command once the configuration was saved
/// (or not).
pub fn config_command_result(save: ConfigSave, saved: Result<(), String>) -> (r: Result<
    Option<String>,
    String,
>)
    ensures
        result_view(r) == match (save, saved) {
            (ConfigSave::Required, Err(e)) => Err(e@),
            _ => Ok(None::<Seq<char>>),
        },
{
    match (save, saved) {
        (ConfigSave::Required, Err(e)) => Err(e),
        _ => Ok(None),
    }
}

} // verus!

verus! {

/// A setting changed by a configuration command is what the matching query
/// answers afterwards: the button switch and script, the login user, the
/// full charge duration, the soft poweroff script.
pub proof fn law_config_command_read_back(old: PiSugarConfig, new: PiSugarConfig, cmd: Cmds, model: Model)
    requires
        config_command_applies(old, new, cmd),
    ensures
        cmd matches Cmds::SetButtonEnable { mode, enable } ==> config_answer_text(
            new,
            model,
            GetCmds::ButtonEnable { mode },
        ) == Some(bool_text(enable.0)),
        cmd matches Cmds::SetButtonShell { mode, shell } ==> config_answer_text(
            new,
            model,
            GetCmds::ButtonShell { mode },
        ) == Some(join_with(views(shell@), " "@)),
        cmd matches Cmds::SetAuth { username, password } ==> config_answer_text(
            new,
            model,
            GetCmds::AuthUsername,
        ) == Some(
            match (username, password) {
                (Some(u), Some(_)) => u@,
                _ => Seq::<char>::empty(),
            },
        ),
        cmd matches Cmds::SetFullChargeDuration { seconds } ==> config_answer_text(
            new,
            model,
            GetCmds::FullChargeDuration,
        ) == Some(decimal(seconds as nat)),
        cmd matches Cmds::SetSoftPoweroffShell { shell } ==> config_answer_text(
            new,
            model,
            GetCmds::SoftPoweroffShell,
        ) == Some(join_with(views(shell@), " "@)),
{
}

/// What the configuration queries answer, for every configuration and model:
/// each switch answers its own setting as `true` / `false` (soft poweroff and
/// auto power on `false` when unset, anti-mistouch `true` when unset), each
/// script and the login user answer their own text (empty when unset), the
/// repeat mask and the full charge duration their decimal text, the button
/// queries the switch and script of the mode asked for, and the model and LED
/// count those of the board.
pub proof fn law_config_answers(c: PiSugarConfig, model: Model)
    ensures
        config_answer_text(c, model, GetCmds::SoftPoweroff) == Some(
            if c.soft_poweroff == Some(true) {
                "true"@
            } else {
                "false"@
            },
        ),
        config_answer_text(c, model, GetCmds::AutoPowerOn) == Some(
            if c.auto_power_on == Some(true) {
                "true"@
            } else {
                "false"@
            },
        ),
        config_answer_text(c, model, GetCmds::AntiMistouch) == Some(
            if c.anti_mistouch == Some(false) {
                "false"@
            } else {
                "true"@
            },
        ),
        config_answer_text(c, model, GetCmds::SoftPoweroffShell) == Some(
            match c.soft_poweroff_shell {
                Some(t) => t@,
                None => Seq::<char>::empty(),
            },
        ),
        config_answer_text(c, model, GetCmds::AuthUsername) == Some(
            match c.auth_user {
                Some(u) => u@,
                None => Seq::<char>::empty(),
            },
        ),
        config_answer_text(c, model, GetCmds::AlarmRepeat) == Some(decimal(c.auto_wake_repeat as nat)),
        config_answer_text(c, model, GetCmds::FullChargeDuration) == Some(
            match c.full_charge_duration {
                Some(d) => decimal(d as nat),
                None => Seq::<char>::empty(),
            },
        ),
        config_answer_text(c, model, GetCmds::ButtonEnable { mode: ButtonMode::Single }) == Some(
            if c.single_tap_enable {
                "true"@
            } else {
                "false"@
            },
        ),
        config_answer_text(c, model, GetCmds::ButtonEnable { mode: ButtonMode::Double }) == Some(
            if c.double_tap_enable {
                "true"@
            } else {
                "false"@
            },
        ),
        config_answer_text(c, model, GetCmds::ButtonEnable { mode: ButtonMode::Long }) == Some(
            if c.long_tap_enable {
                "true"@
            } else {
                "false"@
            },
        ),
        config_answer_text(c, model, GetCmds::ButtonShell { mode: ButtonMode::Single }) == Some(
            c.single_tap_shell@,
        ),
        config_answer_text(c, model, GetCmds::ButtonShell { mode: ButtonMode::Double }) == Some(
            c.double_tap_shell@,
        ),
        config_answer_text(c, model, GetCmds::ButtonShell { mode: ButtonMode::Long }) == Some(
            c.long_tap_shell@,
        ),
        config_answer_text(c, model, GetCmds::Model) == Some(
            match model {
                Model::PiSugar_2_4LEDs => "PiSugar 2 (4-LEDs)"@,
                Model::PiSugar_2_2LEDs => "PiSugar 2 (2-LEDs)"@,
                Model::PiSugar_2_Pro => "PiSugar 2 Pro"@,
                Model::PiSugar_3 => "PiSugar 3"@,
            },
        ),
        config_answer_text(c, model, GetCmds::BatteryLedAmount) == Some(
            match model {
                Model::PiSugar_2_4LEDs => decimal(4),
                Model::PiSugar_2_2LEDs => decimal(2),
                Model::PiSugar_2_Pro => decimal(2),
                Model::PiSugar_3 => decimal(4),
            },
        ),
{
    reveal_strlit("true");
    reveal_strlit("false");
    assert("true"@ =~= seq!['t', 'r', 'u', 'e']);
    assert("false"@ =~= seq!['f', 'a', 'l', 's', 'e']);
}

/// Which configuration commands answer a failed save with its error: the
/// full charge duration, the login and the soft poweroff script; the button
/// switch and script succeed whatever the save gives; every other command is
/// no configuration command.
pub proof fn law_config_save_policy(cmd: Cmds)
    ensures
        (config_command_save(cmd) == Some(ConfigSave::Required)) <==> (cmd is SetFullChargeDuration
            || cmd is SetAuth || cmd is SetSoftPoweroffShell),
        (config_command_save(cmd) == Some(ConfigSave::Lenient)) <==> (cmd is SetButtonEnable
            || cmd is SetButtonShell),
        config_command_save(cmd) is None <==> !(cmd is SetFullChargeDuration || cmd is SetAuth
            || cmd is SetSoftPoweroffShell || cmd is SetButtonEnable || cmd is SetButtonShell),
{
}

} // verus!
