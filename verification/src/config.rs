//! PiSugar configuration: the settings the library decides on.

use vstd::prelude::*;

use crate::cmds::ButtonMode;
use crate::tap::TapType;
use crate::text::{join_strings, join_with, views};

verus! {

/// Default I2C bus, /dev/i2c-1
pub fn default_i2c_bus() -> (b: u8)
    ensures
        b == 1,
{
    1
}

/// Default auth session timeout, 1h
pub fn default_session_timeout() -> (t: u32)
    ensures
        t == 3600,
{
    60 * 60
}

/// PiSugar configuration (the settings without a floating point value).
#[derive(Debug, Clone)]
pub struct PiSugarConfig {
    /// Http auth user
    pub auth_user: Option<String>,
    pub auth_password: Option<String>,
    /// Auth session timeout in seconds
    pub session_timeout: u32,
    /// I2C bus, default 1 (/dev/i2c-1)
    pub i2c_bus: u8,
    /// I2C addr, default 0x57 (87), available in PiSugar3
    pub i2c_addr: Option<u16>,
    /// Alarm time, as Unix time
    pub auto_wake_time: Option<i64>,
    /// Alarm weekday repeat, bit 0 = Sunday
    pub auto_wake_repeat: u8,
    pub single_tap_enable: bool,
    pub single_tap_shell: String,
    pub double_tap_enable: bool,
    pub double_tap_shell: String,
    pub long_tap_enable: bool,
    pub long_tap_shell: String,
    /// Keep charging duration, seconds
    pub full_charge_duration: Option<u64>,
    /// UPS automatically power on when power recovered
    pub auto_power_on: Option<bool>,
    /// Soft poweroff, PiSugar 3 only
    pub soft_poweroff: Option<bool>,
    pub soft_poweroff_shell: Option<String>,
    /// Auto rtc sync
    pub auto_rtc_sync: Option<bool>,
    /// RTC ppm adjust comm (every second)
    pub adj_comm: Option<u8>,
    /// RTC ppm adjust diff (in 31s)
    pub adj_diff: Option<u8>,
    pub anti_mistouch: Option<bool>,
    /// Battery hardware protect
    pub bat_protect: Option<bool>,
}

pub open spec fn opt_view(s: Option<String>) -> Option<Seq<char>> {
    match s {
        Some(v) => Some(v@),
        None => None,
    }
}

impl Default for PiSugarConfig {
    /// The defaults: bus 1, a one hour session, everything else off or empty.
    fn default() -> (c: Self)
        ensures
            c.auth_user is None,
            c.auth_password is None,
            c.session_timeout == 3600,
            c.i2c_bus == 1,
            c.i2c_addr is None,
            c.auto_wake_time is None,
            c.auto_wake_repeat == 0,
            !c.single_tap_enable && c.single_tap_shell@ == Seq::<char>::empty(),
            !c.double_tap_enable && c.double_tap_shell@ == Seq::<char>::empty(),
            !c.long_tap_enable && c.long_tap_shell@ == Seq::<char>::empty(),
            c.full_charge_duration is None,
            c.auto_power_on is None,
            c.soft_poweroff is None,
            c.soft_poweroff_shell is None,
            c.auto_rtc_sync is None,
            c.adj_comm is None,
            c.adj_diff is None,
            c.anti_mistouch is None,
            c.bat_protect is None,
    {
        PiSugarConfig {
            auth_user: None,
            auth_password: None,
            session_timeout: default_session_timeout(),
            i2c_bus: default_i2c_bus(),
            i2c_addr: None,
            auto_wake_time: None,
            auto_wake_repeat: 0,
            single_tap_enable: false,
            single_tap_shell: String::new(),
            double_tap_enable: false,
            double_tap_shell: String::new(),
            long_tap_enable: false,
            long_tap_shell: String::new(),
            full_charge_duration: None,
            auto_power_on: None,
            soft_poweroff: None,
            soft_poweroff_shell: None,
            auto_rtc_sync: None,
            adj_comm: None,
            adj_diff: None,
            anti_mistouch: None,
            bat_protect: None,
        }
    }
}

impl PiSugarConfig {
    pub open spec fn enable_of(&self, mode: ButtonMode) -> bool {
        match mode {
            ButtonMode::Single => self.single_tap_enable,
            ButtonMode::Double => self.double_tap_enable,
            ButtonMode::Long => self.long_tap_enable,
        }
    }

    pub open spec fn shell_of(&self, mode: ButtonMode) -> Seq<char> {
        match mode {
            ButtonMode::Single => self.single_tap_shell@,
            ButtonMode::Double => self.double_tap_shell@,
            ButtonMode::Long => self.long_tap_shell@,
        }
    }

    /// Http authentication is on when both user and password are set.
    pub open spec fn spec_need_auth(&self) -> bool {
        self.auth_user is Some && self.auth_password is Some
    }

    /// Whether http requests must carry a login token.
    pub fn need_auth(&self) -> (r: bool)
        ensures
            r == self.spec_need_auth(),
    {
        self.auth_user.is_some() && self.auth_password.is_some()
    }

    /// Whether a login with these credentials is granted: always without
    /// authentication, otherwise only for the configured user and password.
    pub fn login_allowed(&self, username: &Option<String>, password: &Option<String>) -> (r: bool)
        ensures
            r == (!self.spec_need_auth() || (username is Some && password is Some && opt_view(
                *username,
            ) == opt_view(self.auth_user) && opt_view(*password) == opt_view(self.auth_password))),
    {
        if !self.need_auth() {
            return true;
        }
        match (username, password, &self.auth_user, &self.auth_password) {
            (Some(u), Some(p), Some(au), Some(ap)) => *u == *au && *p == *ap,
            _ => false,
        }
    }

    /// Whether the tap of `mode` runs its shell script.
    pub fn button_enable(&self, mode: ButtonMode) -> (r: bool)
        ensures
            r == self.enable_of(mode),
    {
        match mode {
            ButtonMode::Single => self.single_tap_enable,
            ButtonMode::Double => self.double_tap_enable,
            ButtonMode::Long => self.long_tap_enable,
        }
    }

    /// The shell script of the tap of `mode`.
    pub fn button_shell(&self, mode: ButtonMode) -> (s: String)
        ensures
            s@ == self.shell_of(mode),
    {
        match mode {
            ButtonMode::Single => self.single_tap_shell.clone(),
            ButtonMode::Double => self.double_tap_shell.clone(),
            ButtonMode::Long => self.long_tap_shell.clone(),
        }
    }

    /// This configuration with the switch of the tap of `mode` set to `enable`.
    pub open spec fn with_enable(self, mode: ButtonMode, enable: bool) -> PiSugarConfig {
        match mode {
            ButtonMode::Single => PiSugarConfig { single_tap_enable: enable, ..self },
            ButtonMode::Double => PiSugarConfig { double_tap_enable: enable, ..self },
            ButtonMode::Long => PiSugarConfig { long_tap_enable: enable, ..self },
        }
    }

    /// `other` differs from this configuration at most in the script of the
    /// tap of `mode`.
    pub open spec fn same_but_shell(self, other: PiSugarConfig, mode: ButtonMode) -> bool {
        match mode {
            ButtonMode::Single => other == PiSugarConfig {
                single_tap_shell: other.single_tap_shell,
                ..self
            },
            ButtonMode::Double => other == PiSugarConfig {
                double_tap_shell: other.double_tap_shell,
                ..self
            },
            ButtonMode::Long => other == PiSugarConfig { long_tap_shell: other.long_tap_shell, ..self },
        }
    }

    pub fn set_button_enable(&mut self, mode: ButtonMode, enable: bool)
        ensures
            *final(self) == old(self).with_enable(mode, enable),
            final(self).enable_of(mode) == enable,
            forall|m: ButtonMode| m != mode ==> final(self).enable_of(m) == old(self).enable_of(m),
            forall|m: ButtonMode| final(self).shell_of(m) == old(self).shell_of(m),
    {
        match mode {
            ButtonMode::Single => self.single_tap_enable = enable,
            ButtonMode::Double => self.double_tap_enable = enable,
            ButtonMode::Long => self.long_tap_enable = enable,
        }
    }

    /// Set the shell script of a tap from its words, joined by spaces.
    pub fn set_button_shell(&mut self, mode: ButtonMode, shell: &Vec<String>)
        ensures
            old(self).same_but_shell(*final(self), mode),
            final(self).shell_of(mode) == join_with(views(shell@), " "@),
            forall|m: ButtonMode| m != mode ==> final(self).shell_of(m) == old(self).shell_of(m),
            forall|m: ButtonMode| final(self).enable_of(m) == old(self).enable_of(m),
    {
        let cmd = join_strings(shell, " ");
        match mode {
            ButtonMode::Single => self.single_tap_shell = cmd,
            ButtonMode::Double => self.double_tap_shell = cmd,
            ButtonMode::Long => self.long_tap_shell = cmd,
        }
    }

    /// Set both user and password, or clear both when either is missing.
    pub fn set_auth(&mut self, username: Option<String>, password: Option<String>)
        ensures
            (username is Some && password is Some) ==> *final(self) == (PiSugarConfig {
                auth_user: username,
                auth_password: password,
                ..*old(self)
            }),
            !(username is Some && password is Some) ==> *final(self) == (PiSugarConfig {
                auth_user: None,
                auth_password: None,
                ..*old(self)
            }),
            (username is Some && password is Some) ==> opt_view(final(self).auth_user) == opt_view(
                username,
            ) && opt_view(final(self).auth_password) == opt_view(password),
            !(username is Some && password is Some) ==> final(self).auth_user is None
                && final(self).auth_password is None,
    {
        if let (Some(username), Some(password)) = (username, password) {
            self.auth_user = Some(username);
            self.auth_password = Some(password);
        } else {
            self.auth_user = None;
            self.auth_password = None;
        }
    }

    /// Set the soft poweroff script from its words; no words clear it.
    pub fn set_soft_poweroff_shell(&mut self, shell: &Vec<String>)
        ensures
            *final(self) == (PiSugarConfig {
                soft_poweroff_shell: final(self).soft_poweroff_shell,
                ..*old(self)
            }),
            join_with(views(shell@), " "@).len() == 0 ==> final(self).soft_poweroff_shell is None,
            join_with(views(shell@), " "@).len() != 0 ==> opt_view(final(self).soft_poweroff_shell)
                == Some(join_with(views(shell@), " "@)),
    {
        let script = join_strings(shell, " ");
        self.soft_poweroff_shell = if script.as_str().unicode_len() != 0 {
            Some(script)
        } else {
            None
        };
    }

    /// The script for a tap, when that tap is enabled.
    pub fn tap_script(&self, tap: TapType) -> (s: Option<String>)
        ensures
            ({
                let mode = match tap {
                    TapType::Single => ButtonMode::Single,
                    TapType::Double => ButtonMode::Double,
                    TapType::Long => ButtonMode::Long,
                };
                match s {
                    Some(v) => self.enable_of(mode) && v@ == self.shell_of(mode),
                    None => !self.enable_of(mode),
                }
            }),
    {
        let mode = match tap {
            TapType::Single => ButtonMode::Single,
            TapType::Double => ButtonMode::Double,
            TapType::Long => ButtonMode::Long,
        };
        if self.button_enable(mode) {
            Some(self.button_shell(mode))
        } else {
            None
        }
    }
}

/// After `set_auth` with a user and a password, exactly those credentials log
/// in; after `set_auth` without both, authentication is off and any login is
/// granted.
pub proof fn law_auth_round_trip(
    c: PiSugarConfig,
    username: Option<String>,
    password: Option<String>,
    u: Option<String>,
    p: Option<String>,
)
    requires
        (username is Some && password is Some) ==> opt_view(c.auth_user) == opt_view(username)
            && opt_view(c.auth_password) == opt_view(password),
        !(username is Some && password is Some) ==> c.auth_user is None && c.auth_password is None,
    ensures
        (username is Some && password is Some) ==> c.spec_need_auth() && ((!c.spec_need_auth() || (
        u is Some && p is Some && opt_view(u) == opt_view(c.auth_user) && opt_view(p) == opt_view(
            c.auth_password,
        ))) <==> (u is Some && p is Some && opt_view(u) == opt_view(username) && opt_view(p)
            == opt_view(password))),
        !(username is Some && password is Some) ==> !c.spec_need_auth(),
{
}

} // verus!
