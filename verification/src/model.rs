//! PiSugar models and their chip addresses.

use vstd::prelude::*;

use crate::pisugar3::I2C_ADDR_P3;
use crate::text::{chars_eq, chars_of};

verus! {

/// RTC address, SD3078
pub const I2C_ADDR_RTC: u16 = 0x32;

/// Battery address, IP5209/IP5312
pub const I2C_ADDR_BAT: u16 = 0x75;

/// PiSugar model
#[allow(non_camel_case_types)]
#[derive(Debug, Clone, Copy, PartialEq, Eq, Structural)]
pub enum Model {
    PiSugar_2_4LEDs,
    PiSugar_2_2LEDs,
    PiSugar_2_Pro,
    PiSugar_3,
}

/// The name of a model as the user sees and types it.
pub open spec fn model_name(m: Model) -> Seq<char> {
    match m {
        Model::PiSugar_2_4LEDs => "PiSugar 2 (4-LEDs)"@,
        Model::PiSugar_2_2LEDs => "PiSugar 2 (2-LEDs)"@,
        Model::PiSugar_2_Pro => "PiSugar 2 Pro"@,
        Model::PiSugar_3 => "PiSugar 3"@,
    }
}

pub open spec fn led_amount_of(m: Model) -> u32 {
    match m {
        Model::PiSugar_2_4LEDs => 4,
        Model::PiSugar_2_2LEDs => 2,
        Model::PiSugar_2_Pro => 2,
        Model::PiSugar_3 => 4,
    }
}

impl Model {
    pub fn led_amount(&self) -> (n: u32)
        ensures
            n == led_amount_of(*self),
    {
        match *self {
            Model::PiSugar_2_4LEDs => 4,
            Model::PiSugar_2_2LEDs => 2,
            Model::PiSugar_2_Pro => 2,
            Model::PiSugar_3 => 4,
        }
    }

    pub fn default_battery_i2c_addr(&self) -> (a: u16)
        ensures
            a == if *self == Model::PiSugar_3 { I2C_ADDR_P3 } else { I2C_ADDR_BAT },
    {
        match *self {
            Model::PiSugar_3 => I2C_ADDR_P3,
            _ => I2C_ADDR_BAT,
        }
    }

    pub fn default_rtc_i2c_addr(&self) -> (a: u16)
        ensures
            a == if *self == Model::PiSugar_3 { I2C_ADDR_P3 } else { I2C_ADDR_RTC },
    {
        match *self {
            Model::PiSugar_3 => I2C_ADDR_P3,
            _ => I2C_ADDR_RTC,
        }
    }

    /// The model name, as displayed.
    pub fn to_string(&self) -> (s: String)
        ensures
            s@ == model_name(*self),
    {
        match *self {
            Model::PiSugar_2_4LEDs => String::from_str("PiSugar 2 (4-LEDs)"),
            Model::PiSugar_2_2LEDs => String::from_str("PiSugar 2 (2-LEDs)"),
            Model::PiSugar_2_Pro => String::from_str("PiSugar 2 Pro"),
            Model::PiSugar_3 => String::from_str("PiSugar 3"),
        }
    }

    /// The model with this exact name.
    pub fn from_str(s: &str) -> (r: Result<Model, ()>)
        ensures
            r matches Ok(m) ==> model_name(m) == s@,
            r is Err ==> forall|m: Model| model_name(m) != s@,
    {
        let c = chars_of(s);
        if chars_eq(&c, &chars_of("PiSugar 2 (4-LEDs)")) {
            Ok(Model::PiSugar_2_4LEDs)
        } else if chars_eq(&c, &chars_of("PiSugar 2 (2-LEDs)")) {
            Ok(Model::PiSugar_2_2LEDs)
        } else if chars_eq(&c, &chars_of("PiSugar 2 Pro")) {
            Ok(Model::PiSugar_2_Pro)
        } else if chars_eq(&c, &chars_of("PiSugar 3")) {
            Ok(Model::PiSugar_3)
        } else {
            proof {
                assert forall|m: Model| model_name(m) != s@ by {
                    match m {
                        Model::PiSugar_2_4LEDs => {},
                        Model::PiSugar_2_2LEDs => {},
                        Model::PiSugar_2_Pro => {},
                        Model::PiSugar_3 => {},
                    }
                }
            }
            Err(())
        }
    }

    /// All models, in the order the tools list them.
    pub fn value_variants() -> (v: Vec<Model>)
        ensures
            v@ == seq![Model::PiSugar_2_4LEDs, Model::PiSugar_2_2LEDs, Model::PiSugar_2_Pro, Model::PiSugar_3],
    {
        let v = vec![Model::PiSugar_2_4LEDs, Model::PiSugar_2_2LEDs, Model::PiSugar_2_Pro, Model::PiSugar_3];
        assert(v@ =~= seq![Model::PiSugar_2_4LEDs, Model::PiSugar_2_2LEDs, Model::PiSugar_2_Pro, Model::PiSugar_3]);
        v
    }
}

/// Model names are pairwise distinct, so a name read back gives its model.
pub proof fn law_model_name_round_trip(m: Model, n: Model)
    ensures
        model_name(m) == model_name(n) ==> m == n,
{
    reveal_strlit("PiSugar 2 (4-LEDs)");
    reveal_strlit("PiSugar 2 (2-LEDs)");
    reveal_strlit("PiSugar 2 Pro");
    reveal_strlit("PiSugar 3");
    if model_name(m) == model_name(n) && m != n {
        let a = model_name(m);
        let b = model_name(n);
        if a.len() == b.len() {
            assert(a[10] != b[10] || a[11] != b[11]);
        }
    }
}

} // verus!
