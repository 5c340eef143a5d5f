use serde::ser::SerializeStruct;
use pisugar::cmds::ButtonMode;
use pisugar::config::{default_i2c_bus, default_session_timeout, PiSugarConfig};
use pisugar::tap::TapType;

/// The configuration as serde sees it, field by field.
struct ConfigFields<'a>(&'a PiSugarConfig);

impl<'a> serde::Serialize for ConfigFields<'a> {
    fn serialize<S: serde::Serializer>(&self, serializer: S) -> Result<S::Ok, S::Error> {
        let c = self.0;
        let mut st = serializer.serialize_struct("PiSugarConfig", 22)?;
        st.serialize_field("auth_user", &c.auth_user)?;
        st.serialize_field("auth_password", &c.auth_password)?;
        st.serialize_field("session_timeout", &c.session_timeout)?;
        st.serialize_field("i2c_bus", &c.i2c_bus)?;
        st.serialize_field("i2c_addr", &c.i2c_addr)?;
        st.serialize_field("auto_wake_time", &c.auto_wake_time)?;
        st.serialize_field("auto_wake_repeat", &c.auto_wake_repeat)?;
        st.serialize_field("single_tap_enable", &c.single_tap_enable)?;
        st.serialize_field("single_tap_shell", &c.single_tap_shell)?;
        st.serialize_field("double_tap_enable", &c.double_tap_enable)?;
        st.serialize_field("double_tap_shell", &c.double_tap_shell)?;
        st.serialize_field("long_tap_enable", &c.long_tap_enable)?;
        st.serialize_field("long_tap_shell", &c.long_tap_shell)?;
        st.serialize_field("full_charge_duration", &c.full_charge_duration)?;
        st.serialize_field("auto_power_on", &c.auto_power_on)?;
        st.serialize_field("soft_poweroff", &c.soft_poweroff)?;
        st.serialize_field("soft_poweroff_shell", &c.soft_poweroff_shell)?;
        st.serialize_field("auto_rtc_sync", &c.auto_rtc_sync)?;
        st.serialize_field("adj_comm", &c.adj_comm)?;
        st.serialize_field("adj_diff", &c.adj_diff)?;
        st.serialize_field("anti_mistouch", &c.anti_mistouch)?;
        st.serialize_field("bat_protect", &c.bat_protect)?;
        st.end()
    }
}

#[test]
fn test_config() {
    let config = PiSugarConfig::default();
    assert!(serde_json::to_string(&ConfigFields(&config)).is_ok())
}

#[test]
fn config_defaults() {
    let c = PiSugarConfig::default();
    assert_eq!(default_i2c_bus(), 1);
    assert_eq!(default_session_timeout(), 3600);
    assert_eq!(c.i2c_bus, 1);
    assert_eq!(c.session_timeout, 3600);
    assert_eq!(c.i2c_addr, None);
    assert!(!c.need_auth());
    assert!(!c.single_tap_enable);
    assert_eq!(c.long_tap_shell, "");
}

#[test]
fn login_rules() {
    let mut c = PiSugarConfig::default();
    assert!(c.login_allowed(&None, &None));
    c.set_auth(Some("admin".to_string()), Some("pw".to_string()));
    assert!(c.need_auth());
    assert!(c.login_allowed(&Some("admin".to_string()), &Some("pw".to_string())));
    assert!(!c.login_allowed(&Some("admin".to_string()), &Some("bad".to_string())));
    assert!(!c.login_allowed(&None, &Some("pw".to_string())));
    c.set_auth(None, Some("pw".to_string()));
    assert!(!c.need_auth());
    assert!(c.login_allowed(&None, &None));
}

#[test]
fn button_settings() {
    let mut c = PiSugarConfig::default();
    c.set_button_enable(ButtonMode::Double, true);
    c.set_button_shell(ButtonMode::Double, &vec!["echo".to_string(), "double".to_string()]);
    assert!(c.button_enable(ButtonMode::Double));
    assert!(!c.button_enable(ButtonMode::Single));
    assert_eq!(c.button_shell(ButtonMode::Double), "echo double");
    assert_eq!(c.tap_script(TapType::Double), Some("echo double".to_string()));
    assert_eq!(c.tap_script(TapType::Single), None);
}

#[test]
fn soft_poweroff_script() {
    let mut c = PiSugarConfig::default();
    c.set_soft_poweroff_shell(&vec!["sudo".to_string(), "poweroff".to_string()]);
    assert_eq!(c.soft_poweroff_shell, Some("sudo poweroff".to_string()));
    c.set_soft_poweroff_shell(&vec![]);
    assert_eq!(c.soft_poweroff_shell, None);
}
