//! PiSugar 3: register programs and register decoding of its I2C interface.

use vstd::prelude::*;

use crate::bcd::{bcd_of, bcd_to_dec, bcd_value, dec_to_bcd};
use crate::regs::{
    append_ops, apply_op, is_register_file, lemma_protected_update, lemma_protected_write,
    lemma_run_append, lemma_run_cons, lemma_run_one, run, single, RegOp, WRITE_ENABLE_REG, WRITE_ENABLE_KEY,
};
use crate::rtc::{all_bcd, RTCRawTime};
use crate::tap::{tap_of_register, TapType};
use crate::text::{lossy_utf8, utf8_lossy};

verus! {

/// PiSugar 3 i2c addr
pub const I2C_ADDR_P3: u16 = 0x57;

/// Global ctrl 1
pub const IIC_CMD_CTR1: u8 = 0x02;
/// Global ctrl 2
pub const IIC_CMD_CTR2: u8 = 0x03;
/// Temperature
pub const IIC_CMD_TEMP: u8 = 0x04;
/// Tap
pub const IIC_CMD_TAP: u8 = 0x08;
/// Battery ctrl
pub const IIC_CMD_BAT_CTR: u8 = 0x20;
pub const IIC_CMD_BAT_CTR2: u8 = 0x21;
/// Voltage high byte
pub const IIC_CMD_VH: u8 = 0x22;
/// Voltage low byte
pub const IIC_CMD_VL: u8 = 0x23;
/// Output current high byte
pub const IIC_CMD_OH: u8 = 0x26;
/// Output current low byte
pub const IIC_CMD_OL: u8 = 0x27;
/// Battery percentage
pub const IIC_CMD_P: u8 = 0x2A;
/// RTC year
pub const IIC_CMD_RTC_YY: u8 = 0x31;
/// RTC month
pub const IIC_CMD_RTC_MM: u8 = 0x32;
/// RTC day of month
pub const IIC_CMD_RTC_DD: u8 = 0x33;
/// RTC weekday
pub const IIC_CMD_RTC_WD: u8 = 0x34;
/// RTC hour
pub const IIC_CMD_RTC_HH: u8 = 0x35;
/// RTC minute
pub const IIC_CMD_RTC_MN: u8 = 0x36;
/// RTC second
pub const IIC_CMD_RTC_SS: u8 = 0x37;
/// RTC adjust 32s common(every second), 1bit direction, 4bit value
pub const IIC_CMD_RTC_ADJ_COMM: u8 = 0x3A;
/// RTC adjust 32s diff(only in 31s), 5bit value
pub const IIC_CMD_RTC_ADJ_DIFF: u8 = 0x3B;
/// Alarm ctrl
pub const IIC_CMD_ALM_CTR: u8 = 0x40;
/// Alarm weekday repeat
pub const IIC_CMD_ALM_WD: u8 = 0x44;
/// Alarm hour
pub const IIC_CMD_ALM_HH: u8 = 0x45;
/// Alarm minute
pub const IIC_CMD_ALM_MN: u8 = 0x46;
/// Alarm second
pub const IIC_CMD_ALM_SS: u8 = 0x47;
/// RTC I2C address
pub const IIC_CMD_RTC_ADDR: u8 = 0x51;
/// Firmware version, a nul terminated string in at most this many registers
pub const IIC_CMD_APPVER: u8 = 0xE2;
pub const APP_VER_LEN: usize = 15;

/// PiSugar 3 on an I2C bus and address.
#[derive(Clone, Copy, Debug, PartialEq, Eq)]
pub struct PiSugar3 {
    pub i2c_bus: u8,
    pub i2c_addr: u16,
}

/// Protected read-modify-write that clears `bit` and sets it when `enable`.
pub open spec fn switch_op(reg: u8, bit: u8, enable: bool) -> RegOp {
    RegOp::ProtectedUpdate { reg, keep: !bit, set: if enable { bit } else { 0 } }
}

fn switch(reg: u8, bit: u8, enable: bool) -> (ops: Vec<RegOp>)
    ensures
        ops@ == seq![switch_op(reg, bit, enable)],
{
    single(RegOp::ProtectedUpdate { reg, keep: !bit, set: if enable { bit } else { 0 } })
}

/// Bit `bit` of a register after `switch_op` reads as `enable`.
proof fn lemma_switch(regs: Seq<u8>, reg: u8, bit: u8, enable: bool)
    requires
        is_register_file(regs),
        reg != WRITE_ENABLE_REG,
        bit == 0x01 || bit == 0x02 || bit == 0x04 || bit == 0x08 || bit == 0x10 || bit == 0x20
            || bit == 0x40 || bit == 0x80,
    ensures
        ({
            let r = run(regs, seq![switch_op(reg, bit, enable)]);
            &&& (r[reg as int] & bit != 0) == enable
            &&& r[reg as int] & !bit == regs[reg as int] & !bit
            &&& r[WRITE_ENABLE_REG as int] == 0
        }),
{
    let s: u8 = if enable { bit } else { 0 };
    lemma_protected_update(regs, reg, !bit, s);
    let v = regs[reg as int];
    assert((((v & !bit) | bit) & bit != 0) && (((v & !bit) | bit) & !bit == v & !bit)) by (bit_vector)
        requires
            bit == 0x01 || bit == 0x02 || bit == 0x04 || bit == 0x08 || bit == 0x10 || bit == 0x20
                || bit == 0x40 || bit == 0x80,
    ;
    assert((((v & !bit) | 0) & bit == 0) && (((v & !bit) | 0) & !bit == v & !bit)) by (bit_vector);
}

/// Parity bit 7 set so that the byte has an even number of ones.
pub open spec fn with_parity(addr: u8) -> u8 {
    if ones(addr as nat) % 2 == 0 {
        addr
    } else {
        addr | 0x80
    }
}

/// Number of one bits.
pub open spec fn ones(v: nat) -> nat
    decreases v,
{
    if v == 0 {
        0
    } else {
        v % 2 + ones(v / 2)
    }
}

fn count_ones(v: u8) -> (n: u32)
    ensures
        n == ones(v as nat),
{
    proof {
        lemma_ones_bound(v as nat);
    }
    let mut n: u32 = 0;
    let mut x: u8 = v;
    while x != 0
        invariant
            n + ones(x as nat) == ones(v as nat),
            ones(v as nat) <= 8,
        decreases x,
    {
        n = n + (x % 2) as u32;
        x = x / 2;
    }
    n
}

spec fn bits_left(x: nat) -> nat
    decreases x,
{
    if x == 0 {
        0
    } else {
        1 + bits_left(x / 2)
    }
}

proof fn lemma_ones_bound(x: nat)
    requires
        x < 256,
    ensures
        ones(x) <= bits_left(x),
        bits_left(x) <= 8,
        x < 128 ==> bits_left(x) <= 7,
        x < 64 ==> bits_left(x) <= 6,
        x < 32 ==> bits_left(x) <= 5,
        x < 16 ==> bits_left(x) <= 4,
        x < 8 ==> bits_left(x) <= 3,
        x < 4 ==> bits_left(x) <= 2,
        x < 2 ==> bits_left(x) <= 1,
    decreases x,
{
    if x != 0 {
        lemma_ones_bound(x / 2);
    }
}

proof fn lemma_ones_top_bit(x: nat, p: nat, k: nat)
    requires
        p == vstd::arithmetic::power2::pow2(k),
        x < p,
    ensures
        ones(x + p) == ones(x) + 1,
    decreases k,
{
    vstd::arithmetic::power2::lemma_pow2_pos(k);
    if k == 0 {
        vstd::arithmetic::power2::lemma2_to64();
        assert(x == 0);
        assert(ones(1) == 1 + ones(0));
    } else {
        let q = vstd::arithmetic::power2::pow2((k - 1) as nat);
        vstd::arithmetic::power2::lemma_pow2_unfold(k);
        assert(p == 2 * q);
        assert((x + p) % 2 == x % 2);
        assert((x + p) / 2 == x / 2 + q);
        lemma_ones_top_bit(x / 2, q, (k - 1) as nat);
    }
}

/// Registers written by `PiSugar3RTC::write_time` for the time `t`: each field
/// as the BCD of its decimal value, seconds first.
pub open spec fn write_time_ops(t: Seq<u8>) -> Seq<RegOp> {
    seq![
        RegOp::ProtectedWrite { reg: IIC_CMD_RTC_SS, value: bcd_of(bcd_value(t[0]) as u8) },
        RegOp::ProtectedWrite { reg: IIC_CMD_RTC_MN, value: bcd_of(bcd_value(t[1]) as u8) },
        RegOp::ProtectedWrite { reg: IIC_CMD_RTC_HH, value: bcd_of(bcd_value(t[2]) as u8) },
        RegOp::ProtectedWrite { reg: IIC_CMD_RTC_WD, value: bcd_of(bcd_value(t[3]) as u8) },
        RegOp::ProtectedWrite { reg: IIC_CMD_RTC_DD, value: bcd_of(bcd_value(t[4]) as u8) },
        RegOp::ProtectedWrite { reg: IIC_CMD_RTC_MM, value: bcd_of(bcd_value(t[5]) as u8) },
        RegOp::ProtectedWrite { reg: IIC_CMD_RTC_YY, value: bcd_of(bcd_value(t[6]) as u8) },
    ]
}

/// Registers written by `PiSugar3RTC::set_alarm`.
pub open spec fn set_alarm_ops(t: Seq<u8>, weekday_repeat: u8) -> Seq<RegOp> {
    seq![
        RegOp::ProtectedWrite { reg: IIC_CMD_ALM_HH, value: bcd_of(bcd_value(t[2]) as u8) },
        RegOp::ProtectedWrite { reg: IIC_CMD_ALM_MN, value: bcd_of(bcd_value(t[1]) as u8) },
        RegOp::ProtectedWrite { reg: IIC_CMD_ALM_SS, value: bcd_of(bcd_value(t[0]) as u8) },
        RegOp::ProtectedWrite { reg: IIC_CMD_ALM_WD, value: weekday_repeat },
        switch_op(IIC_CMD_ALM_CTR, 0x80, true),
    ]
}

/// Time read from the RTC field registers, given in the order ss..yy.
pub open spec fn rtc_time_of(regs: Seq<u8>) -> Seq<u8> {
    Seq::new(7, |i: int| bcd_of(bcd_value(regs[i]) as u8))
}

/// The RTC field registers of a register file, in the order ss..yy.
pub open spec fn rtc_field_regs(r: Seq<u8>) -> Seq<u8> {
    seq![
        r[IIC_CMD_RTC_SS as int],
        r[IIC_CMD_RTC_MN as int],
        r[IIC_CMD_RTC_HH as int],
        r[IIC_CMD_RTC_WD as int],
        r[IIC_CMD_RTC_DD as int],
        r[IIC_CMD_RTC_MM as int],
        r[IIC_CMD_RTC_YY as int],
    ]
}

/// The version registers that count: at most `APP_VER_LEN` of them.
pub open spec fn version_window(buf: Seq<u8>) -> Seq<u8> {
    buf.take(if buf.len() < APP_VER_LEN { buf.len() as int } else { APP_VER_LEN as int })
}

/// Index of the first zero of `s`, if any.
pub open spec fn first_nul(s: Seq<u8>) -> Option<int> {
    if exists|i: int| 0 <= i < s.len() && s[i] == 0 {
        Some(choose|i: int| 0 <= i < s.len() && s[i] == 0 && forall|j: int| 0 <= j < i ==> s[j] != 0)
    } else {
        None
    }
}

impl PiSugar3 {
    pub fn new(i2c_bus: u8, i2c_addr: u16) -> (p: Self)
        ensures
            p.i2c_bus == i2c_bus,
            p.i2c_addr == i2c_addr,
    {
        PiSugar3 { i2c_bus, i2c_addr }
    }

    /// Control register 1 (read twice by the driver; the first read counts).
    pub fn read_ctr1(&self, ctr1: u8) -> (r: u8)
        ensures
            r == ctr1,
    {
        ctr1
    }

    pub fn write_ctr1(&self, ctr1: u8) -> (ops: Vec<RegOp>)
        ensures
            ops@ == seq![RegOp::ProtectedWrite { reg: IIC_CMD_CTR1, value: ctr1 }],
    {
        single(RegOp::ProtectedWrite { reg: IIC_CMD_CTR1, value: ctr1 })
    }

    /// Control register 2 (read twice by the driver; the first read counts).
    pub fn read_crt2(&self, ctr2: u8) -> (r: u8)
        ensures
            r == ctr2,
    {
        ctr2
    }

    pub fn write_ctr2(&self, ctr2: u8) -> (ops: Vec<RegOp>)
        ensures
            ops@ == seq![RegOp::ProtectedWrite { reg: IIC_CMD_CTR2, value: ctr2 }],
    {
        single(RegOp::ProtectedWrite { reg: IIC_CMD_CTR2, value: ctr2 })
    }

    /// Output enabled: CTR1 bit 5.
    pub fn read_output_enabled(&self, ctr1: u8) -> (r: bool)
        ensures
            r == (ctr1 & 0x20 != 0),
    {
        ctr1 & 0b0010_0000 != 0
    }

    pub fn toggle_output_enabled(&self, enable: bool) -> (ops: Vec<RegOp>)
        ensures
            ops@ == seq![switch_op(IIC_CMD_CTR1, 0x20, enable)],
    {
        switch(IIC_CMD_CTR1, 0b0010_0000, enable)
    }

    /// Power restore: CTR1 bit 4.
    pub fn toggle_restore(&self, auto_restore: bool) -> (ops: Vec<RegOp>)
        ensures
            ops@ == seq![switch_op(IIC_CMD_CTR1, 0x10, auto_restore)],
    {
        switch(IIC_CMD_CTR1, 0b0001_0000, auto_restore)
    }

    /// Soft poweroff: CTR2 bit 4; bits 0-3 are cleared.
    pub fn toggle_soft_poweroff(&self, enable: bool) -> (ops: Vec<RegOp>)
        ensures
            ops@ == seq![
                RegOp::ProtectedUpdate {
                    reg: IIC_CMD_CTR2,
                    keep: 0b1110_0000,
                    set: if enable { 0b0001_0000 } else { 0 },
                },
            ],
    {
        single(
            RegOp::ProtectedUpdate {
                reg: IIC_CMD_CTR2,
                keep: 0b1110_0000,
                set: if enable { 0b0001_0000 } else { 0 },
            },
        )
    }

    /// Soft poweroff requested: bit4 and bit3 of CTR2 both set.
    pub fn read_soft_poweroff_flag(&self, ctr2: u8) -> (r: bool)
        ensures
            r == (ctr2 & 0x18 == 0x18),
    {
        (ctr2 & 0b0001_1000) == 0b0001_1000
    }

    pub fn clear_soft_poweroff_flag(&self) -> (ops: Vec<RegOp>)
        ensures
            ops@ == seq![RegOp::ProtectedUpdate { reg: IIC_CMD_CTR2, keep: 0b1111_0111, set: 0 }],
    {
        single(RegOp::ProtectedUpdate { reg: IIC_CMD_CTR2, keep: 0b1111_0111, set: 0 })
    }

    /// Temperature in degrees Celsius, the register holds it plus 40.
    pub fn read_temp(&self, temp: u8) -> (t: i32)
        ensures
            t == temp - 40,
    {
        temp as i32 - 40
    }

    /// Tap kind, the low two bits of the tap register.
    pub fn read_tap(&self, tap: u8) -> (t: u8)
        ensures
            t == tap & 0x03,
            t <= 3,
    {
        assert(tap & 0x03 <= 3) by (bit_vector);
        tap & 0b0000_0011
    }

    /// Clear the tap kind bits.
    pub fn reset_tap(&self) -> (ops: Vec<RegOp>)
        ensures
            ops@ == seq![RegOp::ProtectedUpdate { reg: IIC_CMD_TAP, keep: 0b1111_1100, set: 0 }],
    {
        single(RegOp::ProtectedUpdate { reg: IIC_CMD_TAP, keep: 0b1111_1100, set: 0 })
    }

    /// The tap that the tap register reports, and the program that resets the
    /// register after a tap (empty when there was none).
    pub fn tap_step(&self, tap: u8) -> (r: (Option<TapType>, Vec<RegOp>))
        ensures
            r.0 == match tap & 0x03 {
                1 => Some(TapType::Single),
                2 => Some(TapType::Double),
                3 => Some(TapType::Long),
                _ => None,
            },
            r.1@ == if r.0 is Some {
                seq![RegOp::ProtectedUpdate { reg: IIC_CMD_TAP, keep: 0b1111_1100, set: 0 }]
            } else {
                Seq::empty()
            },
    {
        let t = tap_of_register(self.read_tap(tap));
        if t.is_some() {
            (t, self.reset_tap())
        } else {
            (t, Vec::new())
        }
    }

    /// Whether `ctr2` holds a soft poweroff request, and the program that
    /// clears a request (empty when there was none).
    pub fn soft_poweroff_step(&self, ctr2: u8) -> (r: (bool, Vec<RegOp>))
        ensures
            r.0 == (ctr2 & 0x18 == 0x18),
            r.1@ == if r.0 {
                seq![RegOp::ProtectedUpdate { reg: IIC_CMD_CTR2, keep: 0b1111_0111, set: 0 }]
            } else {
                Seq::empty()
            },
    {
        let f = self.read_soft_poweroff_flag(ctr2);
        if f {
            (f, self.clear_soft_poweroff_flag())
        } else {
            (f, Vec::new())
        }
    }

    pub fn read_bat_ctr(&self, ctr: u8) -> (r: u8)
        ensures
            r == ctr,
    {
        ctr
    }

    pub fn write_bat_ctr(&self, ctr: u8) -> (ops: Vec<RegOp>)
        ensures
            ops@ == seq![RegOp::ProtectedWrite { reg: IIC_CMD_BAT_CTR, value: ctr }],
    {
        single(RegOp::ProtectedWrite { reg: IIC_CMD_BAT_CTR, value: ctr })
    }

    pub fn read_bat_ctr2(&self, ctr: u8) -> (r: u8)
        ensures
            r == ctr,
    {
        ctr
    }

    pub fn write_bat_ctr2(&self, ctr: u8) -> (ops: Vec<RegOp>)
        ensures
            ops@ == seq![RegOp::ProtectedWrite { reg: IIC_CMD_BAT_CTR2, value: ctr }],
    {
        single(RegOp::ProtectedWrite { reg: IIC_CMD_BAT_CTR2, value: ctr })
    }

    /// Battery input protection: battery control bit 7.
    pub fn read_bat_input_protected(&self, ctr: u8) -> (r: bool)
        ensures
            r == (ctr & 0x80 != 0),
    {
        (ctr & 0b1000_0000) != 0
    }

    pub fn toggle_bat_input_protected(&self, enable: bool) -> (ops: Vec<RegOp>)
        ensures
            ops@ == seq![switch_op(IIC_CMD_BAT_CTR, 0x80, enable)],
    {
        switch(IIC_CMD_BAT_CTR, 0b1000_0000, enable)
    }

    /// Whether the write protection is open.
    pub fn read_write_enable(&self, v: u8) -> (r: bool)
        ensures
            r == (v == WRITE_ENABLE_KEY),
    {
        v == 0x29
    }

    /// Open (0x29) or close (0) the write protection, itself unprotected.
    pub fn toggle_write_enable(&self, enable: bool) -> (ops: Vec<RegOp>)
        ensures
            ops@ == seq![
                RegOp::Write { reg: WRITE_ENABLE_REG, value: if enable { WRITE_ENABLE_KEY } else { 0 } },
            ],
    {
        single(RegOp::Write { reg: WRITE_ENABLE_REG, value: if enable { 0x29 } else { 0 } })
    }

    /// Battery voltage in mV from its high and low registers.
    pub fn read_voltage(&self, vh: u8, vl: u8) -> (v: u16)
        ensures
            v == vh * 256 + vl,
    {
        let h: u16 = vh as u16;
        let l: u16 = vl as u16;
        assert(((h << 8) | l) == h * 256 + l) by (bit_vector)
            requires
                h < 256,
                l < 256,
        ;
        (h << 8) | l
    }

    /// Battery percentage.
    pub fn read_percent(&self, p: u8) -> (r: u8)
        ensures
            r == p,
    {
        p
    }

    /// Output current in mA from its high and low registers.
    pub fn read_output_current(&self, oh: u8, ol: u8) -> (c: u16)
        ensures
            c == oh * 256 + ol,
    {
        let h: u16 = oh as u16;
        let l: u16 = ol as u16;
        assert(((h << 8) | l) == h * 256 + l) by (bit_vector)
            requires
                h < 256,
                l < 256,
        ;
        (h << 8) | l
    }

    /// Alarm enabled: alarm control bit 7.
    pub fn get_alarm_enable(&self, ctr: u8) -> (r: bool)
        ensures
            r == (ctr & 0x80 != 0),
    {
        ctr & (0b1000_0000) != 0
    }

    pub fn toggle_alarm_enable(&self, enable: bool) -> (ops: Vec<RegOp>)
        ensures
            ops@ == seq![switch_op(IIC_CMD_ALM_CTR, 0x80, enable)],
    {
        switch(IIC_CMD_ALM_CTR, 0b1000_0000, enable)
    }

    pub fn read_rtc_yy(&self, v: u8) -> (r: u8)
        ensures
            r == bcd_value(v),
    {
        bcd_to_dec(v)
    }

    pub fn read_rtc_mm(&self, v: u8) -> (r: u8)
        ensures
            r == bcd_value(v),
    {
        bcd_to_dec(v)
    }

    pub fn read_rtc_dd(&self, v: u8) -> (r: u8)
        ensures
            r == bcd_value(v),
    {
        bcd_to_dec(v)
    }

    pub fn read_rtc_weekday(&self, v: u8) -> (r: u8)
        ensures
            r == bcd_value(v),
    {
        bcd_to_dec(v)
    }

    pub fn read_rtc_hh(&self, v: u8) -> (r: u8)
        ensures
            r == bcd_value(v),
    {
        bcd_to_dec(v)
    }

    pub fn read_rtc_mn(&self, v: u8) -> (r: u8)
        ensures
            r == bcd_value(v),
    {
        bcd_to_dec(v)
    }

    pub fn read_rtc_ss(&self, v: u8) -> (r: u8)
        ensures
            r == bcd_value(v),
    {
        bcd_to_dec(v)
    }

    /// Write one RTC field register as BCD.
    pub fn write_rtc_field(&self, reg: u8, value: u8) -> (ops: Vec<RegOp>)
        ensures
            ops@ == seq![RegOp::ProtectedWrite { reg, value: bcd_of(value) }],
    {
        single(RegOp::ProtectedWrite { reg, value: dec_to_bcd(value) })
    }

    pub fn read_rtc_adj_comm(&self, v: u8) -> (r: u8)
        ensures
            r == v,
    {
        v
    }

    /// Direction bit 7 and a four bit value; other bits are dropped.
    pub fn write_rtc_adj_comm(&self, comm: u8) -> (ops: Vec<RegOp>)
        ensures
            ops@ == seq![RegOp::ProtectedWrite { reg: IIC_CMD_RTC_ADJ_COMM, value: comm & 0x8F }],
    {
        let comm = comm & 0b1000_1111;
        single(RegOp::ProtectedWrite { reg: IIC_CMD_RTC_ADJ_COMM, value: comm })
    }

    pub fn read_rtc_adj_diff(&self, v: u8) -> (r: u8)
        ensures
            r == v,
    {
        v
    }

    /// A five bit value; other bits are dropped.
    pub fn write_rtc_adj_diff(&self, diff: u8) -> (ops: Vec<RegOp>)
        ensures
            ops@ == seq![RegOp::ProtectedWrite { reg: IIC_CMD_RTC_ADJ_DIFF, value: diff & 0x1F }],
    {
        let diff = diff & 0b0001_1111;
        single(RegOp::ProtectedWrite { reg: IIC_CMD_RTC_ADJ_DIFF, value: diff })
    }

    /// Weekday repeat mask of the alarm, bit 0 = Sunday.
    pub fn read_alarm_weekday_repeat(&self, v: u8) -> (r: u8)
        ensures
            r == v,
    {
        v
    }

    pub fn read_alarm_hh(&self, v: u8) -> (r: u8)
        ensures
            r == bcd_value(v),
    {
        bcd_to_dec(v)
    }

    pub fn read_alarm_mn(&self, v: u8) -> (r: u8)
        ensures
            r == bcd_value(v),
    {
        bcd_to_dec(v)
    }

    pub fn read_alarm_ss(&self, v: u8) -> (r: u8)
        ensures
            r == bcd_value(v),
    {
        bcd_to_dec(v)
    }

    /// Set the RTC I2C address with its parity bit; addresses outside
    /// 0x03..=0x77 are refused.
    pub fn set_rtc_addr(&self, addr: u8) -> (r: Result<Vec<RegOp>, String>)
        ensures
            addr < 0x03 || addr > 0x77 ==> (r matches Err(e) && e@ == "Invalid RTC I2C address"@),
            0x03 <= addr <= 0x77 ==> (r matches Ok(ops) && ops@ == seq![
                RegOp::ProtectedWrite { reg: IIC_CMD_RTC_ADDR, value: with_parity(addr) },
            ]),
    {
        if addr < 0x03 || addr > 0x77 {
            return Err(String::from_str("Invalid RTC I2C address"));
        }
        let n = count_ones(addr);
        let addr = if n % 2 == 0 {
            addr
        } else {
            addr | 0b1000_0000
        };
        Ok(single(RegOp::ProtectedWrite { reg: IIC_CMD_RTC_ADDR, value: addr }))
    }

    /// Firmware version from the version registers read up to and including
    /// the first nul; without a nul in `APP_VER_LEN` registers the version is
    /// invalid.
    pub fn read_app_version(&self, buf: &Vec<u8>) -> (r: Result<String, String>)
        ensures
            match first_nul(version_window(buf@)) {
                Some(i) => r matches Ok(s) && s@ == lossy_utf8(buf@.take(i)),
                None => r matches Err(e) && e@ == "Invalid firmware version"@,
            },
    {
        let n: usize = if buf.len() < APP_VER_LEN {
            buf.len()
        } else {
            APP_VER_LEN
        };
        let ghost s = version_window(buf@);
        let mut i: usize = 0;
        while i < n
            invariant
                n == s.len(),
                i <= n,
                s == version_window(buf@),
                n <= buf@.len(),
                forall|j: int| 0 <= j < i ==> s[j] != 0,
            decreases n - i,
        {
            if buf[i] == 0 {
                let mut prefix: Vec<u8> = Vec::new();
                let mut k: usize = 0;
                while k < i
                    invariant
                        k <= i,
                        i < buf@.len(),
                        prefix@ == buf@.take(k as int),
                    decreases i - k,
                {
                    prefix.push(buf[k]);
                    k = k + 1;
                    assert(prefix@ =~= buf@.take(k as int));
                }
                proof {
                    assert(s[i as int] == 0);
                    let c = choose|j: int| 0 <= j < s.len() && s[j] == 0 && forall|k: int| 0 <= k < j ==> s[k] != 0;
                    assert(first_nul(s) == Some(c));
                    if c < i {
                    } else if c > i {
                        assert(s[i as int] != 0);
                    }
                }
                return Ok(utf8_lossy(prefix.as_slice()));
            }
            i = i + 1;
        }
        Err(String::from_str("Invalid firmware version"))
    }
}

} // verus!

verus! {

/// What the PiSugar 3 battery does at start: soft poweroff and power restore
/// as configured, anti-mistouch and input protection when configured.
pub open spec fn battery_init_ops(
    soft_poweroff: Option<bool>,
    auto_power_on: Option<bool>,
    anti_mistouch: Option<bool>,
    bat_protect: Option<bool>,
) -> Seq<RegOp> {
    seq![
        RegOp::ProtectedUpdate {
            reg: IIC_CMD_CTR2,
            keep: 0b1110_0000,
            set: if soft_poweroff == Some(true) { 0b0001_0000 } else { 0 },
        },
        switch_op(IIC_CMD_CTR1, 0x10, auto_power_on == Some(true)),
    ] + (match anti_mistouch {
        Some(a) => seq![switch_op(IIC_CMD_CTR1, 0x08, a)],
        None => Seq::empty(),
    }) + (match bat_protect {
        Some(p) => seq![switch_op(IIC_CMD_BAT_CTR, 0x80, p)],
        None => Seq::empty(),
    })
}

impl PiSugar3 {
    /// Power plugged: CTR1 bit 7.
    pub fn is_power_plugged(&self, ctr1: u8) -> (r: bool)
        ensures
            r == (ctr1 & 0x80 != 0),
    {
        (ctr1 & 0b1000_0000) != 0
    }

    /// Charging allowed: CTR1 bit 6.
    pub fn is_allow_charging(&self, ctr1: u8) -> (r: bool)
        ensures
            r == (ctr1 & 0x40 != 0),
    {
        (ctr1 & 0b0100_0000) != 0
    }

    pub fn toggle_allow_charging(&self, enable: bool) -> (ops: Vec<RegOp>)
        ensures
            ops@ == seq![switch_op(IIC_CMD_CTR1, 0x40, enable)],
    {
        switch(IIC_CMD_CTR1, 0b0100_0000, enable)
    }

    /// Charging: power plugged and charging allowed (two reads of CTR1).
    pub fn is_charging(&self, ctr1_plugged: u8, ctr1_allowed: u8) -> (r: bool)
        ensures
            r == (ctr1_plugged & 0x80 != 0 && ctr1_allowed & 0x40 != 0),
    {
        self.is_power_plugged(ctr1_plugged) && self.is_allow_charging(ctr1_allowed)
    }

    /// Keep power input while reading the voltage: battery control 2 bit 7.
    pub fn keep_input(&self, ctr2: u8) -> (r: bool)
        ensures
            r == (ctr2 & 0x80 != 0),
    {
        (ctr2 & 0b1000_0000) != 0
    }

    pub fn set_keep_input(&self, enable: bool) -> (ops: Vec<RegOp>)
        ensures
            ops@ == seq![switch_op(IIC_CMD_BAT_CTR2, 0x80, enable)],
    {
        switch(IIC_CMD_BAT_CTR2, 0b1000_0000, enable)
    }

    /// Light load shutdown: battery control bit 5.
    pub fn toggle_light_load_shutdown(&self, enable: bool) -> (ops: Vec<RegOp>)
        ensures
            ops@ == seq![switch_op(IIC_CMD_BAT_CTR, 0x20, enable)],
    {
        switch(IIC_CMD_BAT_CTR, 0b0010_0000, enable)
    }

    /// Anti-mistouch: CTR1 bit 3.
    pub fn toggle_anti_mistouch(&self, enable: bool) -> (ops: Vec<RegOp>)
        ensures
            ops@ == seq![switch_op(IIC_CMD_CTR1, 0x08, enable)],
    {
        switch(IIC_CMD_CTR1, 0b0000_1000, enable)
    }

    /// Battery setup at start.
    pub fn battery_init(
        &self,
        soft_poweroff: Option<bool>,
        auto_power_on: Option<bool>,
        anti_mistouch: Option<bool>,
        bat_protect: Option<bool>,
    ) -> (ops: Vec<RegOp>)
        ensures
            ops@ == battery_init_ops(soft_poweroff, auto_power_on, anti_mistouch, bat_protect),
    {
        let mut ops = self.toggle_soft_poweroff(soft_poweroff == Some(true));
        let restore = self.toggle_restore(auto_power_on == Some(true));
        append_ops(&mut ops, &restore);
        let ghost head = ops@;
        if let Some(a) = anti_mistouch {
            let m = self.toggle_anti_mistouch(a);
            append_ops(&mut ops, &m);
        }
        let ghost mid = ops@;
        if let Some(p) = bat_protect {
            let b = self.toggle_bat_input_protected(p);
            append_ops(&mut ops, &b);
        }
        proof {
            let e = Seq::<RegOp>::empty();
            if anti_mistouch is None {
                assert(mid =~= head + e);
            }
            if bat_protect is None {
                assert(ops@ =~= mid + e);
            }
        }
        ops
    }
}

/// The PiSugar 3 RTC, on the PiSugar 3 chip.
#[derive(Clone, Copy, Debug, PartialEq, Eq)]
pub struct PiSugar3RTC {
    pub pisugar3: PiSugar3,
}

/// What the PiSugar 3 RTC does at start.
pub open spec fn rtc_init_ops(
    auto_power_on: Option<bool>,
    wake: Option<(Seq<u8>, u8)>,
    adj_comm: Option<u8>,
    adj_diff: Option<u8>,
) -> Seq<RegOp> {
    seq![switch_op(IIC_CMD_CTR1, 0x10, auto_power_on == Some(true)), switch_op(IIC_CMD_ALM_CTR, 0x80, false)]
        + (match wake {
        Some((t, r)) => if r & 0x7f != 0 {
            set_alarm_ops(t, r) + seq![switch_op(IIC_CMD_ALM_CTR, 0x80, true)]
        } else {
            Seq::empty()
        },
        None => Seq::empty(),
    }) + (match adj_comm {
        Some(c) => seq![RegOp::ProtectedWrite { reg: IIC_CMD_RTC_ADJ_COMM, value: c & 0x8F }],
        None => Seq::empty(),
    }) + (match adj_diff {
        Some(d) => seq![RegOp::ProtectedWrite { reg: IIC_CMD_RTC_ADJ_DIFF, value: d & 0x1F }],
        None => Seq::empty(),
    })
}

impl PiSugar3RTC {
    pub fn new(i2c_bus: u8, i2c_addr: u16) -> (r: Self)
        ensures
            r.pisugar3.i2c_bus == i2c_bus,
            r.pisugar3.i2c_addr == i2c_addr,
    {
        PiSugar3RTC { pisugar3: PiSugar3::new(i2c_bus, i2c_addr) }
    }

    /// Setup at start: power restore, the alarm off and back on for a wake up
    /// time with some weekday, and the clock adjustments.
    pub fn init(
        &self,
        auto_power_on: Option<bool>,
        wake: Option<(RTCRawTime, u8)>,
        adj_comm: Option<u8>,
        adj_diff: Option<u8>,
    ) -> (ops: Vec<RegOp>)
        ensures
            ops@ == rtc_init_ops(
                auto_power_on,
                match wake {
                    Some((t, r)) => Some((t.0@, r)),
                    None => None,
                },
                adj_comm,
                adj_diff,
            ),
    {
        let p = self.pisugar3;
        let mut ops = p.toggle_restore(auto_power_on == Some(true));
        let off = p.toggle_alarm_enable(false);
        append_ops(&mut ops, &off);
        let ghost s0 = ops@;
        if let Some((t, r)) = wake {
            if r & 0x7f != 0 {
                let a = self.set_alarm(t, r);
                append_ops(&mut ops, &a);
                let on = p.toggle_alarm_enable(true);
                append_ops(&mut ops, &on);
                assert(ops@ =~= s0 + (set_alarm_ops(t.0@, r) + seq![switch_op(IIC_CMD_ALM_CTR, 0x80, true)]));
            }
        }
        let ghost s1 = ops@;
        if let Some(c) = adj_comm {
            let w = p.write_rtc_adj_comm(c);
            append_ops(&mut ops, &w);
        }
        let ghost s2 = ops@;
        if let Some(d) = adj_diff {
            let w = p.write_rtc_adj_diff(d);
            append_ops(&mut ops, &w);
        }
        proof {
            let e = Seq::<RegOp>::empty();
            if !(wake is Some && wake.unwrap().1 & 0x7f != 0) {
                assert(s1 =~= s0 + e);
            }
            if adj_comm is None {
                assert(s2 =~= s1 + e);
            }
            if adj_diff is None {
                assert(ops@ =~= s2 + e);
            }
        }
        ops
    }

    /// RTC I2C address register.
    pub fn read_addr(&self, v: u8) -> (r: u8)
        ensures
            r == v,
    {
        v
    }

    /// Set the RTC I2C address (with parity bit).
    pub fn set_addr(&self, addr: u8) -> (r: Result<Vec<RegOp>, String>)
        ensures
            addr < 0x03 || addr > 0x77 ==> (r matches Err(e) && e@ == "Invalid RTC I2C address"@),
            0x03 <= addr <= 0x77 ==> (r matches Ok(ops) && ops@ == seq![
                RegOp::ProtectedWrite { reg: IIC_CMD_RTC_ADDR, value: with_parity(addr) },
            ]),
    {
        if addr < 0x03 || addr > 0x77 {
            return Err(String::from_str("Invalid RTC I2C address"));
        }
        self.pisugar3.set_rtc_addr(addr)
    }

    /// Time from the RTC field registers, given in the order ss, mn, hh, wd,
    /// dd, mm, yy.
    pub fn read_time(&self, regs: [u8; 7]) -> (t: RTCRawTime)
        ensures
            t.0@ == rtc_time_of(regs@),
    {
        let p = self.pisugar3;
        let t = RTCRawTime::from_dec(
            [
                p.read_rtc_ss(regs[0]),
                p.read_rtc_mn(regs[1]),
                p.read_rtc_hh(regs[2]),
                p.read_rtc_weekday(regs[3]),
                p.read_rtc_dd(regs[4]),
                p.read_rtc_mm(regs[5]),
                p.read_rtc_yy(regs[6]),
            ],
        );
        assert(t.0@ =~= rtc_time_of(regs@));
        t
    }

    /// Write the time, one field register after the other.
    pub fn write_time(&self, raw: RTCRawTime) -> (ops: Vec<RegOp>)
        ensures
            ops@ == write_time_ops(raw.0@),
    {
        let mut ops: Vec<RegOp> = Vec::new();
        ops.push(RegOp::ProtectedWrite { reg: IIC_CMD_RTC_SS, value: dec_to_bcd(raw.second()) });
        ops.push(RegOp::ProtectedWrite { reg: IIC_CMD_RTC_MN, value: dec_to_bcd(raw.minute()) });
        ops.push(RegOp::ProtectedWrite { reg: IIC_CMD_RTC_HH, value: dec_to_bcd(raw.hour()) });
        ops.push(RegOp::ProtectedWrite { reg: IIC_CMD_RTC_WD, value: dec_to_bcd(raw.weekday()) });
        ops.push(RegOp::ProtectedWrite { reg: IIC_CMD_RTC_DD, value: dec_to_bcd(raw.day()) });
        ops.push(RegOp::ProtectedWrite { reg: IIC_CMD_RTC_MM, value: dec_to_bcd(raw.month()) });
        let yy: u8 = ((raw.year() - 2000) & 0xff) as u8;
        let y = raw.year() - 2000;
        assert(y & 0xff == y) by (bit_vector)
            requires
                y <= 165,
        ;
        ops.push(RegOp::ProtectedWrite { reg: IIC_CMD_RTC_YY, value: dec_to_bcd(yy) });
        assert(ops@ =~= write_time_ops(raw.0@));
        ops
    }

    /// Clock adjustment: `comm` steps every second in the direction `faster`,
    /// and `diff` steps in 31s of 32.
    pub fn write_adjust_ppm(&self, comm: u8, diff: u8, faster: bool) -> (ops: Vec<RegOp>)
        ensures
            ops@ == seq![
                RegOp::ProtectedWrite {
                    reg: IIC_CMD_RTC_ADJ_COMM,
                    value: (if faster { comm | 0x80 } else { comm }) & 0x8F,
                },
                RegOp::ProtectedWrite { reg: IIC_CMD_RTC_ADJ_DIFF, value: diff & 0x1F },
            ],
    {
        let p = self.pisugar3;
        let mut ops = if faster {
            p.write_rtc_adj_comm(comm | 0b1000_0000)
        } else {
            p.write_rtc_adj_comm(comm)
        };
        let d = p.write_rtc_adj_diff(diff);
        append_ops(&mut ops, &d);
        ops
    }

    /// Alarm time from the alarm registers: its hour, minute and second on
    /// 2000-01-01, with the weekday repeat mask in the weekday register.
    pub fn read_alarm_time(&self, ss: u8, mn: u8, hh: u8, weekday_repeat: u8) -> (t: RTCRawTime)
        ensures
            t.0@ == seq![
                bcd_of(bcd_value(ss) as u8),
                bcd_of(bcd_value(mn) as u8),
                bcd_of(bcd_value(hh) as u8),
                weekday_repeat,
                1u8,
                1u8,
                0u8,
            ],
    {
        let p = self.pisugar3;
        let raw = RTCRawTime::from_dec(
            [p.read_alarm_ss(ss), p.read_alarm_mn(mn), p.read_alarm_hh(hh), 0, 1, 1, 0],
        );
        let a = raw.0;
        let t = RTCRawTime([a[0], a[1], a[2], weekday_repeat, a[4], a[5], a[6]]);
        assert(bcd_of(0) == 0 && bcd_of(1) == 1);
        assert(t.0@ =~= seq![
            bcd_of(bcd_value(ss) as u8),
            bcd_of(bcd_value(mn) as u8),
            bcd_of(bcd_value(hh) as u8),
            weekday_repeat,
            1u8,
            1u8,
            0u8,
        ]);
        t
    }

    /// Set the alarm time of day and weekday repeat mask, and switch it on.
    pub fn set_alarm(&self, time: RTCRawTime, weekday_repeat: u8) -> (ops: Vec<RegOp>)
        ensures
            ops@ == set_alarm_ops(time.0@, weekday_repeat),
    {
        let p = self.pisugar3;
        let mut ops: Vec<RegOp> = Vec::new();
        ops.push(RegOp::ProtectedWrite { reg: IIC_CMD_ALM_HH, value: dec_to_bcd(time.hour()) });
        ops.push(RegOp::ProtectedWrite { reg: IIC_CMD_ALM_MN, value: dec_to_bcd(time.minute()) });
        ops.push(RegOp::ProtectedWrite { reg: IIC_CMD_ALM_SS, value: dec_to_bcd(time.second()) });
        ops.push(RegOp::ProtectedWrite { reg: IIC_CMD_ALM_WD, value: weekday_repeat });
        let on = p.toggle_alarm_enable(true);
        append_ops(&mut ops, &on);
        assert(ops@ =~= set_alarm_ops(time.0@, weekday_repeat));
        ops
    }

    pub fn is_alarm_enable(&self, ctr: u8) -> (r: bool)
        ensures
            r == (ctr & 0x80 != 0),
    {
        self.pisugar3.get_alarm_enable(ctr)
    }

    pub fn toggle_alarm_enable(&self, enable: bool) -> (ops: Vec<RegOp>)
        ensures
            ops@ == seq![switch_op(IIC_CMD_ALM_CTR, 0x80, enable)],
    {
        self.pisugar3.toggle_alarm_enable(enable)
    }
}

/// Every PiSugar 3 switch (output, power restore, charging, anti-mistouch,
/// input protection, keep input, light load shutdown, alarm) reads back as it
/// was set, changes no other bit of its register and leaves the write
/// protection closed.
pub proof fn law_switch_reads_back(regs: Seq<u8>, reg: u8, bit: u8, enable: bool)
    requires
        is_register_file(regs),
        reg != WRITE_ENABLE_REG,
        bit == 0x01 || bit == 0x02 || bit == 0x04 || bit == 0x08 || bit == 0x10 || bit == 0x20
            || bit == 0x40 || bit == 0x80,
    ensures
        ({
            let r = run(regs, seq![switch_op(reg, bit, enable)]);
            &&& (r[reg as int] & bit != 0) == enable
            &&& r[reg as int] & !bit == regs[reg as int] & !bit
            &&& r[WRITE_ENABLE_REG as int] == 0
        }),
{
    lemma_switch(regs, reg, bit, enable);
}

/// Switching soft poweroff sets its enable bit and leaves no poweroff request.
pub proof fn law_soft_poweroff_switch(regs: Seq<u8>, enable: bool)
    requires
        is_register_file(regs),
    ensures
        ({
            let s: u8 = if enable { 0b0001_0000 } else { 0 };
            let r = run(regs, seq![RegOp::ProtectedUpdate { reg: IIC_CMD_CTR2, keep: 0b1110_0000, set: s }]);
            &&& (r[IIC_CMD_CTR2 as int] & 0x10 != 0) == enable
            &&& !(r[IIC_CMD_CTR2 as int] & 0x18 == 0x18)
        }),
{
    let s: u8 = if enable { 0b0001_0000 } else { 0 };
    lemma_protected_update(regs, IIC_CMD_CTR2, 0b1110_0000, s);
    let v = regs[IIC_CMD_CTR2 as int];
    assert(((v & 0xE0) | 0x10) & 0x10 != 0 && ((v & 0xE0) | 0x10) & 0x18 != 0x18) by (bit_vector);
    assert(((v & 0xE0) | 0) & 0x10 == 0 && ((v & 0xE0) | 0) & 0x18 != 0x18) by (bit_vector);
}

/// A cleared soft poweroff request is gone.
pub proof fn law_clear_soft_poweroff(regs: Seq<u8>)
    requires
        is_register_file(regs),
    ensures
        ({
            let r = run(regs, seq![RegOp::ProtectedUpdate { reg: IIC_CMD_CTR2, keep: 0b1111_0111, set: 0 }]);
            !(r[IIC_CMD_CTR2 as int] & 0x18 == 0x18)
        }),
{
    lemma_protected_update(regs, IIC_CMD_CTR2, 0b1111_0111, 0);
    let v = regs[IIC_CMD_CTR2 as int];
    assert(((v & 0xF7) | 0) & 0x18 != 0x18) by (bit_vector);
}

/// A time with valid BCD registers written to the PiSugar 3 clock reads back
/// unchanged.
pub proof fn law_rtc_time_round_trip(regs: Seq<u8>, t: Seq<u8>)
    requires
        is_register_file(regs),
        t.len() == 7,
        all_bcd(t),
    ensures
        rtc_time_of(rtc_field_regs(run(regs, write_time_ops(t)))) == t,
{
    assert forall|i: int| 0 <= i < 7 implies bcd_of(bcd_value(#[trigger] t[i]) as u8) == t[i] by {
        crate::bcd::lemma_encode_decode(t[i]);
    }
    assert(write_time_ops(t) =~= field_write_ops(t));
    lemma_field_writes(regs, t);
    assert(rtc_time_of(t) =~= t);
}

/// Protected writes of `v` to the RTC field registers, seconds first.
pub open spec fn field_write_ops(v: Seq<u8>) -> Seq<RegOp> {
    seq![
        RegOp::ProtectedWrite { reg: IIC_CMD_RTC_SS, value: v[0] },
        RegOp::ProtectedWrite { reg: IIC_CMD_RTC_MN, value: v[1] },
        RegOp::ProtectedWrite { reg: IIC_CMD_RTC_HH, value: v[2] },
        RegOp::ProtectedWrite { reg: IIC_CMD_RTC_WD, value: v[3] },
        RegOp::ProtectedWrite { reg: IIC_CMD_RTC_DD, value: v[4] },
        RegOp::ProtectedWrite { reg: IIC_CMD_RTC_MM, value: v[5] },
        RegOp::ProtectedWrite { reg: IIC_CMD_RTC_YY, value: v[6] },
    ]
}

proof fn lemma_field_writes(regs: Seq<u8>, v: Seq<u8>)
    requires
        is_register_file(regs),
        v.len() == 7,
    ensures
        rtc_field_regs(run(regs, field_write_ops(v))) == v,
{
    let w0 = RegOp::ProtectedWrite { reg: IIC_CMD_RTC_SS, value: v[0] };
    let w1 = RegOp::ProtectedWrite { reg: IIC_CMD_RTC_MN, value: v[1] };
    let w2 = RegOp::ProtectedWrite { reg: IIC_CMD_RTC_HH, value: v[2] };
    let w3 = RegOp::ProtectedWrite { reg: IIC_CMD_RTC_WD, value: v[3] };
    let w4 = RegOp::ProtectedWrite { reg: IIC_CMD_RTC_DD, value: v[4] };
    let w5 = RegOp::ProtectedWrite { reg: IIC_CMD_RTC_MM, value: v[5] };
    let w6 = RegOp::ProtectedWrite { reg: IIC_CMD_RTC_YY, value: v[6] };
    let e = Seq::<RegOp>::empty();
    let s6 = seq![w6] + e;
    let s5 = seq![w5] + s6;
    let s4 = seq![w4] + s5;
    let s3 = seq![w3] + s4;
    let s2 = seq![w2] + s3;
    let s1 = seq![w1] + s2;
    let s0 = seq![w0] + s1;
    assert(s0 =~= field_write_ops(v));
    let r1 = apply_op(regs, w0);
    lemma_protected_write(regs, IIC_CMD_RTC_SS, v[0]);
    let r2 = apply_op(r1, w1);
    lemma_protected_write(r1, IIC_CMD_RTC_MN, v[1]);
    let r3 = apply_op(r2, w2);
    lemma_protected_write(r2, IIC_CMD_RTC_HH, v[2]);
    let r4 = apply_op(r3, w3);
    lemma_protected_write(r3, IIC_CMD_RTC_WD, v[3]);
    let r5 = apply_op(r4, w4);
    lemma_protected_write(r4, IIC_CMD_RTC_DD, v[4]);
    let r6 = apply_op(r5, w5);
    lemma_protected_write(r5, IIC_CMD_RTC_MM, v[5]);
    let r7 = apply_op(r6, w6);
    lemma_protected_write(r6, IIC_CMD_RTC_YY, v[6]);
    lemma_run_cons(regs, w0, s1);
    lemma_run_cons(r1, w1, s2);
    lemma_run_cons(r2, w2, s3);
    lemma_run_cons(r3, w3, s4);
    lemma_run_cons(r4, w4, s5);
    lemma_run_cons(r5, w5, s6);
    lemma_run_cons(r6, w6, e);
    assert(run(r7, e) == r7);
    assert(rtc_field_regs(r7) =~= v);
}

/// The RTC address byte keeps the address in its low seven bits and has an
/// even number of one bits.
pub proof fn law_rtc_addr_parity(addr: u8)
    requires
        0x03 <= addr <= 0x77,
    ensures
        with_parity(addr) & 0x7F == addr,
        ones(with_parity(addr) as nat) % 2 == 0,
{
    assert(addr & 0x7F == addr && (addr | 0x80) & 0x7F == addr && (addr | 0x80) == addr + 128) by (bit_vector)
        requires
            addr <= 0x77,
    ;
    vstd::arithmetic::power2::lemma2_to64();
    lemma_ones_top_bit(addr as nat, 128, 7);
}

/// The alarm that `set_alarm` programs is the requested one: read back from
/// the alarm registers, its hour is the hour of the requested time, its minute
/// the minute, its second the second (for fields of at most 99; a valid BCD
/// time is stored byte for byte), the weekday register holds the repeat mask,
/// and the alarm is switched on with the write protection closed.
pub proof fn law_alarm_read_back(regs: Seq<u8>, t: Seq<u8>, weekday_repeat: u8)
    requires
        is_register_file(regs),
        t.len() == 7,
    ensures
        ({
            let r = run(regs, set_alarm_ops(t, weekday_repeat));
            &&& bcd_value(t[2]) <= 99 ==> bcd_value(r[IIC_CMD_ALM_HH as int]) == bcd_value(t[2])
            &&& bcd_value(t[1]) <= 99 ==> bcd_value(r[IIC_CMD_ALM_MN as int]) == bcd_value(t[1])
            &&& bcd_value(t[0]) <= 99 ==> bcd_value(r[IIC_CMD_ALM_SS as int]) == bcd_value(t[0])
            &&& all_bcd(t) ==> r[IIC_CMD_ALM_HH as int] == t[2] && r[IIC_CMD_ALM_MN as int] == t[1]
                && r[IIC_CMD_ALM_SS as int] == t[0]
            &&& r[IIC_CMD_ALM_WD as int] == weekday_repeat
            &&& r[IIC_CMD_ALM_CTR as int] & 0x80 != 0
            &&& r[WRITE_ENABLE_REG as int] == 0
        }),
{
    let hh = bcd_of(bcd_value(t[2]) as u8);
    let mn = bcd_of(bcd_value(t[1]) as u8);
    let ss = bcd_of(bcd_value(t[0]) as u8);
    let w0 = RegOp::ProtectedWrite { reg: IIC_CMD_ALM_HH, value: hh };
    let w1 = RegOp::ProtectedWrite { reg: IIC_CMD_ALM_MN, value: mn };
    let w2 = RegOp::ProtectedWrite { reg: IIC_CMD_ALM_SS, value: ss };
    let w3 = RegOp::ProtectedWrite { reg: IIC_CMD_ALM_WD, value: weekday_repeat };
    let w4 = switch_op(IIC_CMD_ALM_CTR, 0x80, true);
    let e = Seq::<RegOp>::empty();
    let s4 = seq![w4];
    let s3 = seq![w3] + s4;
    let s2 = seq![w2] + s3;
    let s1 = seq![w1] + s2;
    let s0 = seq![w0] + s1;
    assert(s0 =~= set_alarm_ops(t, weekday_repeat));
    let r1 = apply_op(regs, w0);
    lemma_protected_write(regs, IIC_CMD_ALM_HH, hh);
    let r2 = apply_op(r1, w1);
    lemma_protected_write(r1, IIC_CMD_ALM_MN, mn);
    let r3 = apply_op(r2, w2);
    lemma_protected_write(r2, IIC_CMD_ALM_SS, ss);
    let r4 = apply_op(r3, w3);
    lemma_protected_write(r3, IIC_CMD_ALM_WD, weekday_repeat);
    lemma_run_cons(regs, w0, s1);
    lemma_run_cons(r1, w1, s2);
    lemma_run_cons(r2, w2, s3);
    lemma_run_cons(r3, w3, s4);
    lemma_switch(r4, IIC_CMD_ALM_CTR, 0x80, true);
    lemma_protected_update(r4, IIC_CMD_ALM_CTR, !0x80u8, 0x80);
    if bcd_value(t[2]) <= 99 {
        crate::bcd::lemma_decode_encode(bcd_value(t[2]) as u8);
    }
    if bcd_value(t[1]) <= 99 {
        crate::bcd::lemma_decode_encode(bcd_value(t[1]) as u8);
    }
    if bcd_value(t[0]) <= 99 {
        crate::bcd::lemma_decode_encode(bcd_value(t[0]) as u8);
    }
    if all_bcd(t) {
        assert(crate::bcd::is_bcd(t[0]) && crate::bcd::is_bcd(t[1]) && crate::bcd::is_bcd(t[2]));
        crate::bcd::lemma_encode_decode(t[0]);
        crate::bcd::lemma_encode_decode(t[1]);
        crate::bcd::lemma_encode_decode(t[2]);
    }
}

/// The PiSugar 3 start-up program sets each configured switch: the soft
/// poweroff enable bit of CTR2 is on exactly when soft poweroff is
/// `Some(true)`, the power restore bit of CTR1 exactly when auto power on is
/// `Some(true)`, the anti-mistouch bit of CTR1 reads back a configured
/// `Some(a)` as `a`, and the input protection bit of the battery control
/// reads back a configured `Some(p)` as `p`; the write protection ends closed.
pub proof fn law_battery_init_switches(
    regs: Seq<u8>,
    soft_poweroff: Option<bool>,
    auto_power_on: Option<bool>,
    anti_mistouch: Option<bool>,
    bat_protect: Option<bool>,
)
    requires
        is_register_file(regs),
    ensures
        ({
            let r = run(regs, battery_init_ops(soft_poweroff, auto_power_on, anti_mistouch, bat_protect));
            &&& (r[IIC_CMD_CTR2 as int] & 0x10 != 0) == (soft_poweroff == Some(true))
            &&& (r[IIC_CMD_CTR1 as int] & 0x10 != 0) == (auto_power_on == Some(true))
            &&& anti_mistouch matches Some(a) ==> (r[IIC_CMD_CTR1 as int] & 0x08 != 0) == a
            &&& bat_protect matches Some(p) ==> (r[IIC_CMD_BAT_CTR as int] & 0x80 != 0) == p
            &&& r[WRITE_ENABLE_REG as int] == 0
        }),
{
    let sp: u8 = if soft_poweroff == Some(true) { 0b0001_0000 } else { 0 };
    let op0 = RegOp::ProtectedUpdate { reg: IIC_CMD_CTR2, keep: 0b1110_0000, set: sp };
    let op1 = switch_op(IIC_CMD_CTR1, 0x10, auto_power_on == Some(true));
    let am = match anti_mistouch {
        Some(m) => seq![switch_op(IIC_CMD_CTR1, 0x08, m)],
        None => Seq::<RegOp>::empty(),
    };
    let bp = match bat_protect {
        Some(p) => seq![switch_op(IIC_CMD_BAT_CTR, 0x80, p)],
        None => Seq::<RegOp>::empty(),
    };
    assert(battery_init_ops(soft_poweroff, auto_power_on, anti_mistouch, bat_protect) =~= seq![op0]
        + (seq![op1] + (am + bp)));
    // soft poweroff bit of CTR2
    lemma_protected_update(regs, IIC_CMD_CTR2, 0b1110_0000, sp);
    lemma_run_one(regs, op0);
    let r1 = apply_op(regs, op0);
    let v = regs[IIC_CMD_CTR2 as int];
    assert(((v & 0xE0) | 0x10) & 0x10 != 0 && ((v & 0xE0) | 0) & 0x10 == 0) by (bit_vector);
    lemma_run_cons(regs, op0, seq![op1] + (am + bp));
    // power restore bit of CTR1
    lemma_switch(r1, IIC_CMD_CTR1, 0x10, auto_power_on == Some(true));
    lemma_protected_update(
        r1,
        IIC_CMD_CTR1,
        !0x10u8,
        if auto_power_on == Some(true) { 0x10u8 } else { 0 },
    );
    lemma_run_one(r1, op1);
    let r2 = apply_op(r1, op1);
    lemma_run_cons(r1, op1, am + bp);
    lemma_run_append(r2, am, bp);
    let r3 = run(r2, am);
    // anti-mistouch bit of CTR1, keeping the power restore bit
    if let Some(a) = anti_mistouch {
        lemma_switch(r2, IIC_CMD_CTR1, 0x08, a);
        lemma_protected_update(r2, IIC_CMD_CTR1, !0x08u8, if a { 0x08u8 } else { 0 });
        let x = r2[IIC_CMD_CTR1 as int];
        let y = r3[IIC_CMD_CTR1 as int];
        assert((y & !0x08u8) == (x & !0x08u8) ==> ((y & 0x10) == (x & 0x10))) by (bit_vector);
    } else {
        assert(r3 == r2);
    }
    assert(is_register_file(r3));
    let r = run(r3, bp);
    // input protection bit of the battery control
    if let Some(p) = bat_protect {
        lemma_switch(r3, IIC_CMD_BAT_CTR, 0x80, p);
        lemma_protected_update(r3, IIC_CMD_BAT_CTR, !0x80u8, if p { 0x80u8 } else { 0 });
    } else {
        assert(r == r3);
    }
}

/// A protected transaction on a register other than `i` and the write
/// protection.
pub open spec fn protected_elsewhere(op: RegOp, i: int) -> bool {
    match op {
        RegOp::ProtectedWrite { reg, .. } => reg != i && reg != WRITE_ENABLE_REG,
        RegOp::ProtectedUpdate { reg, .. } => reg != i && reg != WRITE_ENABLE_REG,
        _ => false,
    }
}

proof fn lemma_protected_frame(regs: Seq<u8>, ops: Seq<RegOp>, i: int)
    requires
        is_register_file(regs),
        0 <= i < 256,
        i != WRITE_ENABLE_REG,
        forall|k: int| 0 <= k < ops.len() ==> protected_elsewhere(#[trigger] ops[k], i),
    ensures
        is_register_file(run(regs, ops)),
        run(regs, ops)[i] == regs[i],
    decreases ops.len(),
{
    if ops.len() > 0 {
        let op = ops[0];
        assert(protected_elsewhere(ops[0], i));
        let next = apply_op(regs, op);
        match op {
            RegOp::ProtectedWrite { reg, value } => lemma_protected_write(regs, reg, value),
            RegOp::ProtectedUpdate { reg, keep, set } => {
                lemma_protected_write(regs, reg, crate::regs::updated(regs[reg as int], keep, set));
            },
            _ => {},
        }
        let rest = ops.drop_first();
        assert forall|k: int| 0 <= k < rest.len() implies protected_elsewhere(#[trigger] rest[k], i) by {
            assert(rest[k] == ops[k + 1]);
        }
        lemma_protected_frame(next, rest, i);
    }
}

/// The PiSugar 3 RTC start-up program: the power restore bit of CTR1 is on
/// exactly when auto power on is `Some(true)`; the alarm ends switched on
/// exactly when a wake-up with some weekday in its repeat mask is configured,
/// and then its registers hold the wake-up time of day (a valid BCD time) and
/// the mask; the configured clock adjustments are stored as masked; the
/// write protection ends closed.
pub proof fn law_rtc_init(
    regs: Seq<u8>,
    auto_power_on: Option<bool>,
    wake: Option<(Seq<u8>, u8)>,
    adj_comm: Option<u8>,
    adj_diff: Option<u8>,
)
    requires
        is_register_file(regs),
        wake matches Some((t, r)) ==> t.len() == 7,
    ensures
        ({
            let r = run(regs, rtc_init_ops(auto_power_on, wake, adj_comm, adj_diff));
            &&& (r[IIC_CMD_CTR1 as int] & 0x10 != 0) == (auto_power_on == Some(true))
            &&& (r[IIC_CMD_ALM_CTR as int] & 0x80 != 0) == match wake {
                Some((t, m)) => m & 0x7f != 0,
                None => false,
            }
            &&& match wake {
                Some((t, m)) => (m & 0x7f != 0 && all_bcd(t)) ==> (r[IIC_CMD_ALM_HH as int] == t[2]
                    && r[IIC_CMD_ALM_MN as int] == t[1] && r[IIC_CMD_ALM_SS as int] == t[0]
                    && r[IIC_CMD_ALM_WD as int] == m),
                None => true,
            }
            &&& adj_comm matches Some(c) ==> r[IIC_CMD_RTC_ADJ_COMM as int] == c & 0x8F
            &&& adj_diff matches Some(d) ==> r[IIC_CMD_RTC_ADJ_DIFF as int] == d & 0x1F
            &&& r[WRITE_ENABLE_REG as int] == 0
        }),
{
    let a0 = switch_op(IIC_CMD_CTR1, 0x10, auto_power_on == Some(true));
    let a1 = switch_op(IIC_CMD_ALM_CTR, 0x80, false);
    let w = match wake {
        Some((t, m)) => if m & 0x7f != 0 {
            set_alarm_ops(t, m) + seq![switch_op(IIC_CMD_ALM_CTR, 0x80, true)]
        } else {
            Seq::<RegOp>::empty()
        },
        None => Seq::<RegOp>::empty(),
    };
    let c = match adj_comm {
        Some(x) => seq![RegOp::ProtectedWrite { reg: IIC_CMD_RTC_ADJ_COMM, value: x & 0x8F }],
        None => Seq::<RegOp>::empty(),
    };
    let d = match adj_diff {
        Some(x) => seq![RegOp::ProtectedWrite { reg: IIC_CMD_RTC_ADJ_DIFF, value: x & 0x1F }],
        None => Seq::<RegOp>::empty(),
    };
    let tail = w + (c + d);
    assert(rtc_init_ops(auto_power_on, wake, adj_comm, adj_diff) =~= seq![a0] + (seq![a1] + tail));
    // the two switches
    let e0: u8 = if auto_power_on == Some(true) { 0x10 } else { 0 };
    lemma_switch(regs, IIC_CMD_CTR1, 0x10, auto_power_on == Some(true));
    lemma_protected_update(regs, IIC_CMD_CTR1, !0x10u8, e0);
    lemma_run_one(regs, a0);
    let r1 = apply_op(regs, a0);
    lemma_run_cons(regs, a0, seq![a1] + tail);
    lemma_switch(r1, IIC_CMD_ALM_CTR, 0x80, false);
    lemma_protected_update(r1, IIC_CMD_ALM_CTR, !0x80u8, 0);
    lemma_run_one(r1, a1);
    let r2 = apply_op(r1, a1);
    lemma_run_cons(r1, a1, tail);
    assert(r2[IIC_CMD_CTR1 as int] == r1[IIC_CMD_CTR1 as int]);
    // the wake-up alarm
    lemma_run_append(r2, w, c + d);
    let r3 = run(r2, w);
    if let Some((t, m)) = wake {
        if m & 0x7f != 0 {
            let sa = set_alarm_ops(t, m);
            let on = switch_op(IIC_CMD_ALM_CTR, 0x80, true);
            lemma_run_append(r2, sa, seq![on]);
            law_alarm_read_back(r2, t, m);
            assert(forall|k: int| 0 <= k < sa.len() ==> protected_elsewhere(#[trigger] sa[k], IIC_CMD_CTR1 as int));
            lemma_protected_frame(r2, sa, IIC_CMD_CTR1 as int);
            let ra = run(r2, sa);
            lemma_switch(ra, IIC_CMD_ALM_CTR, 0x80, true);
            lemma_protected_update(ra, IIC_CMD_ALM_CTR, !0x80u8, 0x80);
        } else {
            assert(r3 == r2);
        }
    } else {
        assert(r3 == r2);
    }
    assert(is_register_file(r3));
    // the clock adjustments
    lemma_run_append(r3, c, d);
    let r4 = run(r3, c);
    if let Some(x) = adj_comm {
        lemma_run_one(r3, c[0]);
        assert(c =~= seq![c[0]]);
        lemma_protected_write(r3, IIC_CMD_RTC_ADJ_COMM, x & 0x8F);
    } else {
        assert(r4 == r3);
    }
    let r5 = run(r4, d);
    if let Some(x) = adj_diff {
        lemma_run_one(r4, d[0]);
        assert(d =~= seq![d[0]]);
        lemma_protected_write(r4, IIC_CMD_RTC_ADJ_DIFF, x & 0x1F);
    } else {
        assert(r5 == r4);
    }
}

} // verus!
