//! IP5312, the battery chip of the PiSugar 2 Pro for the Pi 3/4.

use vstd::prelude::*;

use crate::error::Error;
use crate::ip5209::{adc14, signed_adc};
use crate::regs::{
    append_ops, apply_op, is_register_file, lemma_run_append, lemma_run_cons, lemma_run_len, lemma_run_one,
    lemma_run_three, run, RegOp,
};

verus! {

/// Idle current of a Pi 3/4, in mA
pub const PI_PRO_IDLE_INTENSITY_MA: u64 = 200;

/// IP5312, pi-3/4 bat chip, on an I2C bus and address.
#[derive(Clone, Copy, Debug, PartialEq, Eq)]
pub struct IP5312 {
    pub i2c_bus: u8,
    pub i2c_addr: u16,
}

/// Unsigned 14-bit voltage ADC value; both registers zero means no reading.
pub open spec fn voltage_adc(low: u8, high: u8) -> Option<u16> {
    if low == 0 && high == 0 {
        None
    } else {
        Some((((high & 0x3F) as int) * 256 + (low as int)) as u16)
    }
}

pub open spec fn enable_light_load_ops() -> Seq<RegOp> {
    seq![
        RegOp::Update { reg: 0xC9, keep: 0b1100_0000, set: 46 },
        RegOp::Update { reg: 0x06, keep: 0b0011_1111, set: 0 },
        RegOp::Update { reg: 0x03, keep: 0xFF, set: 0b0010_0000 },
        RegOp::Update { reg: 0x13, keep: 0b1100_1111, set: 0b0001_0000 },
    ]
}

pub open spec fn disable_light_load_ops() -> Seq<RegOp> {
    seq![RegOp::Update { reg: 0x03, keep: 0b1101_1111, set: 0 }]
}

pub open spec fn init_gpio_ops() -> Seq<RegOp> {
    seq![
        RegOp::Update { reg: 0x52, keep: 0xFF, set: 0b0000_0010 },
        RegOp::Update { reg: 0x54, keep: 0xFF, set: 0b0000_0010 },
    ]
}

pub open spec fn init_gpio_2led_ops() -> Seq<RegOp> {
    seq![
        RegOp::Update { reg: 0x52, keep: 0xFF, set: 0b0000_0010 },
        RegOp::Update { reg: 0x54, keep: 0xFF, set: 0b0000_0010 },
        RegOp::Update { reg: 0x52, keep: 0xFF, set: 0b0000_0100 },
        RegOp::Update { reg: 0x29, keep: 0b1011_1111, set: 0 },
        RegOp::Update { reg: 0x52, keep: 0b1001_1111, set: 0b0100_0000 },
        RegOp::Update { reg: 0xC2, keep: 0xFF, set: 0b0001_0000 },
    ]
}

pub open spec fn toggle_allow_charging_2led_ops(enable: bool) -> Seq<RegOp> {
    seq![
        RegOp::Update { reg: 0x56, keep: 0b1111_1011, set: 0 },
        RegOp::Update { reg: 0x58, keep: 0b1111_1011, set: if enable { 0 } else { 0b0000_0100 } },
        RegOp::Update { reg: 0x56, keep: 0xFF, set: 0b0000_0100 },
    ]
}

pub open spec fn init_boost_intensity_ops() -> Seq<RegOp> {
    seq![RegOp::Update { reg: 0x30, keep: 0b1100_0000, set: 0x3F }]
}

pub open spec fn force_shutdown_ops() -> Seq<RegOp> {
    enable_light_load_ops() + seq![RegOp::Update { reg: 0x01, keep: 0b1111_1011, set: 0 }]
}

/// What the battery does at start: GPIO setup for the LED variant (and
/// charging allowed on 2-LED boards), boost current, then light load shutdown
/// off with auto power on, on otherwise.
pub open spec fn battery_init_ops(two_leds: bool, auto_power_on: Option<bool>) -> Seq<RegOp> {
    (if two_leds {
        init_gpio_2led_ops() + toggle_allow_charging_2led_ops(true)
    } else {
        init_gpio_ops()
    }) + init_boost_intensity_ops() + if auto_power_on == Some(true) {
        disable_light_load_ops()
    } else {
        enable_light_load_ops()
    }
}

impl IP5312 {
    /// Create new IP5312
    pub fn new(i2c_bus: u8, i2c_addr: u16) -> (c: Self)
        ensures
            c.i2c_bus == i2c_bus,
            c.i2c_addr == i2c_addr,
    {
        IP5312 { i2c_bus, i2c_addr }
    }

    /// Voltage ADC value (0.26855 mV steps above 2600 mV) of registers 0xd0,
    /// 0xd1; `None` when both read zero (the feature is not supported).
    pub fn read_voltage(&self, low: u8, high: u8) -> (v: Option<u16>)
        ensures
            v == voltage_adc(low, high),
    {
        if low == 0 && high == 0 {
            return None;
        }
        let h: u8 = high & 0b0011_1111;
        assert(h <= 63) by (bit_vector)
            requires
                h == high & 0x3F,
        ;
        Some((h as u16) * 256 + (low as u16))
    }

    /// Current ADC value (2.68554 mA steps) of registers 0xd2, 0xd3.
    pub fn read_intensity(&self, low: u8, high: u8) -> (v: i16)
        ensures
            v == adc14(low, high),
    {
        signed_adc(low, high)
    }

    /// Shutdown under light load: the idle current in 4.3 mA steps (at most
    /// 63), 8s, enabled, battery low at 2.76-2.84V.
    pub fn enable_light_load_auto_shutdown(&self) -> (ops: Vec<RegOp>)
        ensures
            ops@ == enable_light_load_ops(),
    {
        let x: u64 = PI_PRO_IDLE_INTENSITY_MA * 10 / 43;
        let x: u8 = if x > 0b0011_1111 {
            0b0011_1111
        } else {
            x as u8
        };
        let mut ops: Vec<RegOp> = Vec::new();
        ops.push(RegOp::Update { reg: 0xC9, keep: 0b1100_0000, set: x });
        ops.push(RegOp::Update { reg: 0x06, keep: 0b0011_1111, set: 0 });
        ops.push(RegOp::Update { reg: 0x03, keep: 0xFF, set: 0b0010_0000 });
        ops.push(RegOp::Update { reg: 0x13, keep: 0b1100_1111, set: 0b0001_0000 });
        assert(ops@ =~= enable_light_load_ops());
        ops
    }

    /// Disable auto shutdown under light load
    pub fn disable_light_load_shutdown(&self) -> (ops: Vec<RegOp>)
        ensures
            ops@ == disable_light_load_ops(),
    {
        let mut ops: Vec<RegOp> = Vec::new();
        ops.push(RegOp::Update { reg: 0x03, keep: 0b1101_1111, set: 0 });
        assert(ops@ =~= disable_light_load_ops());
        ops
    }

    /// Init GPIO, 4-led
    pub fn init_gpio(&self) -> (ops: Vec<RegOp>)
        ensures
            ops@ == init_gpio_ops(),
    {
        let mut ops: Vec<RegOp> = Vec::new();
        ops.push(RegOp::Update { reg: 0x52, keep: 0xFF, set: 0b0000_0010 });
        ops.push(RegOp::Update { reg: 0x54, keep: 0xFF, set: 0b0000_0010 });
        assert(ops@ =~= init_gpio_ops());
        ops
    }

    /// Init GPIO, 2-led
    pub fn init_gpio_2led(&self) -> (ops: Vec<RegOp>)
        ensures
            ops@ == init_gpio_2led_ops(),
    {
        let mut ops: Vec<RegOp> = Vec::new();
        ops.push(RegOp::Update { reg: 0x52, keep: 0xFF, set: 0b0000_0010 });
        ops.push(RegOp::Update { reg: 0x54, keep: 0xFF, set: 0b0000_0010 });
        ops.push(RegOp::Update { reg: 0x52, keep: 0xFF, set: 0b0000_0100 });
        ops.push(RegOp::Update { reg: 0x29, keep: 0b1011_1111, set: 0 });
        ops.push(RegOp::Update { reg: 0x52, keep: 0b1001_1111, set: 0b0100_0000 });
        ops.push(RegOp::Update { reg: 0xC2, keep: 0xFF, set: 0b0001_0000 });
        assert(ops@ =~= init_gpio_2led_ops());
        ops
    }

    /// Charging allowed (GPIO2 low), from register 0x58.
    pub fn allow_charging_2led(&self, v: u8) -> (r: bool)
        ensures
            r == (v & 0x04 == 0),
    {
        (v & 0b0000_0100) == 0
    }

    /// Enable/disable charging, 2 led only
    pub fn toggle_allow_charging_2led(&self, enable: bool) -> (ops: Vec<RegOp>)
        ensures
            ops@ == toggle_allow_charging_2led_ops(enable),
    {
        let mut ops: Vec<RegOp> = Vec::new();
        ops.push(RegOp::Update { reg: 0x56, keep: 0b1111_1011, set: 0 });
        ops.push(
            RegOp::Update { reg: 0x58, keep: 0b1111_1011, set: if enable { 0 } else { 0b0000_0100 } },
        );
        ops.push(RegOp::Update { reg: 0x56, keep: 0xFF, set: 0b0000_0100 });
        assert(ops@ =~= toggle_allow_charging_2led_ops(enable));
        ops
    }

    /// Is power cable plugged in, 2-led, from register 0xdd.
    pub fn is_power_plugged_2led(&self, high: u8) -> (r: bool)
        ensures
            r == (high == 0x1F),
    {
        if high == 0x1f {
            return true;
        }
        false
    }

    /// Init boost intensity, 0x3f*50ma, 3A
    pub fn init_boost_intensity(&self) -> (ops: Vec<RegOp>)
        ensures
            ops@ == init_boost_intensity_ops(),
    {
        let mut ops: Vec<RegOp> = Vec::new();
        ops.push(RegOp::Update { reg: 0x30, keep: 0b1100_0000, set: 0x3f });
        assert(ops@ =~= init_boost_intensity_ops());
        ops
    }

    /// Read gpio tap, gpio1 of register 0x58.
    pub fn read_gpio_tap(&self, v: u8) -> (r: u8)
        ensures
            r == v & 0x02,
    {
        v & 0b0000_0010
    }

    /// Force shutdown
    pub fn force_shutdown(&self) -> (ops: Vec<RegOp>)
        ensures
            ops@ == force_shutdown_ops(),
    {
        let mut ops = self.enable_light_load_auto_shutdown();
        ops.push(RegOp::Update { reg: 0x01, keep: 0b1111_1011, set: 0 });
        assert(ops@ =~= force_shutdown_ops());
        ops
    }

    /// Battery chip setup at start.
    pub fn battery_init(&self, two_leds: bool, auto_power_on: Option<bool>) -> (ops: Vec<RegOp>)
        ensures
            ops@ == battery_init_ops(two_leds, auto_power_on),
    {
        let mut ops = if two_leds {
            let mut a = self.init_gpio_2led();
            let b = self.toggle_allow_charging_2led(true);
            append_ops(&mut a, &b);
            a
        } else {
            self.init_gpio()
        };
        let boost = self.init_boost_intensity();
        append_ops(&mut ops, &boost);
        let tail = if auto_power_on == Some(true) {
            self.disable_light_load_shutdown()
        } else {
            self.enable_light_load_auto_shutdown()
        };
        append_ops(&mut ops, &tail);
        ops
    }

    /// Whether charging is allowed: read on 2-LED boards, always on 4-LED boards.
    pub fn is_allow_charging(&self, two_leds: bool, v: u8) -> (r: bool)
        ensures
            r == (!two_leds || v & 0x04 == 0),
    {
        if two_leds {
            self.allow_charging_2led(v)
        } else {
            true
        }
    }

    /// Allow or stop charging; only 2-LED boards control charging.
    pub fn toggle_allow_charging(&self, two_leds: bool, enable: bool) -> (r: Result<Vec<RegOp>, Error>)
        ensures
            two_leds ==> (r matches Ok(ops) && ops@ == toggle_allow_charging_2led_ops(enable)),
            !two_leds ==> r == Err::<Vec<RegOp>, Error>(Error::FeatureNotSupported),
    {
        if two_leds {
            Ok(self.toggle_allow_charging_2led(enable))
        } else {
            Err(Error::FeatureNotSupported)
        }
    }

    /// Output can only be switched off, by a forced shutdown.
    pub fn toggle_output_enabled(&self, enable: bool) -> (r: Result<Vec<RegOp>, Error>)
        ensures
            !enable ==> (r matches Ok(ops) && ops@ == force_shutdown_ops()),
            enable ==> (r matches Err(Error::Other(m)) && m@ == "Not available"@),
    {
        if !enable {
            return Ok(self.force_shutdown());
        }
        Err(Error::Other(String::from_str("Not available")))
    }

    pub fn toggle_light_load_shutdown(&self, enable: bool) -> (ops: Vec<RegOp>)
        ensures
            ops@ == if enable { enable_light_load_ops() } else { disable_light_load_ops() },
    {
        if enable {
            self.enable_light_load_auto_shutdown()
        } else {
            self.disable_light_load_shutdown()
        }
    }
}

/// On 2-LED boards, allowing or stopping charging is what reading the
/// charging state reports, with the charging control output driven again.
pub proof fn law_allow_charging_switch(regs: Seq<u8>, enable: bool)
    requires
        is_register_file(regs),
    ensures
        ({
            let r = run(regs, toggle_allow_charging_2led_ops(enable));
            &&& (r[0x58] & 0x04 == 0) == enable
            &&& r[0x56] & 0x04 != 0
        }),
{
    let ops = toggle_allow_charging_2led_ops(enable);
    lemma_run_three(regs, ops[0], ops[1], ops[2]);
    assert(ops =~= seq![ops[0], ops[1], ops[2]]);
    let v = regs[0x58];
    let g = regs[0x56];
    assert(((v & 0xFB) | 0) & 0x04 == 0 && ((v & 0xFB) | 0x04) & 0x04 != 0) by (bit_vector);
    assert(((((g & 0xFB) | 0) & 0xFF) | 0x04) & 0x04 != 0) by (bit_vector);
}

/// The start-up program leaves the light load automatic shutdown (bit 5 of register 0x03)
/// off exactly when auto power on is `Some(true)`, so the board does not
/// power itself off under light load then; on 2-LED boards it also leaves
/// charging allowed.
pub proof fn law_battery_init_light_load(regs: Seq<u8>, two_leds: bool, auto_power_on: Option<bool>)
    requires
        is_register_file(regs),
    ensures
        ({
            let r = run(regs, battery_init_ops(two_leds, auto_power_on));
            &&& (r[0x03] & 0x20 == 0) == (auto_power_on == Some(true))
            &&& two_leds ==> r[0x58] & 0x04 == 0
        }),
{
    let head = (if two_leds {
        init_gpio_2led_ops() + toggle_allow_charging_2led_ops(true)
    } else {
        init_gpio_ops()
    }) + init_boost_intensity_ops();
    let tail = if auto_power_on == Some(true) {
        disable_light_load_ops()
    } else {
        enable_light_load_ops()
    };
    assert(battery_init_ops(two_leds, auto_power_on) =~= head + tail);
    lemma_run_append(regs, head, tail);
    lemma_run_len(regs, head);
    let r0 = run(regs, head);
    if two_leds {
        let g = init_gpio_2led_ops();
        lemma_run_len(regs, g);
        let gt = g + toggle_allow_charging_2led_ops(true);
        assert(head =~= gt + init_boost_intensity_ops());
        lemma_run_append(regs, gt, init_boost_intensity_ops());
        lemma_run_append(regs, g, toggle_allow_charging_2led_ops(true));
        lemma_run_len(regs, gt);
        let b = init_boost_intensity_ops();
        lemma_run_one(run(regs, gt), b[0]);
        assert(b =~= seq![b[0]]);
        law_allow_charging_switch(run(regs, g), true);
    }
    if auto_power_on == Some(true) {
        let t = disable_light_load_ops();
        lemma_run_one(r0, t[0]);
        assert(t =~= seq![t[0]]);
        let x = r0[0x03];
        assert(((x & 0xDF) | 0) & 0x20 == 0) by (bit_vector);
    } else {
        let t = enable_light_load_ops();
        assert(t =~= seq![t[0]] + seq![t[1], t[2], t[3]]);
        assert(seq![t[1], t[2], t[3]] =~= seq![t[1]] + seq![t[2], t[3]]);
        assert(seq![t[2], t[3]] =~= seq![t[2]] + seq![t[3]]);
        let a = apply_op(r0, t[0]);
        let b = apply_op(a, t[1]);
        let c = apply_op(b, t[2]);
        lemma_run_cons(r0, t[0], seq![t[1], t[2], t[3]]);
        lemma_run_cons(a, t[1], seq![t[2], t[3]]);
        lemma_run_cons(b, t[2], seq![t[3]]);
        lemma_run_one(c, t[3]);
        let x = b[0x03];
        assert(((x & 0xFF) | 0x20) & 0x20 != 0) by (bit_vector);
    }
}

} // verus!
