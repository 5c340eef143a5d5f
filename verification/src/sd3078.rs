//! SD3078 real time clock (PiSugar 2): register programs and register decoding.

use vstd::prelude::*;

use crate::bcd::{bcd_of, bcd_to_dec, bcd_value, dec_to_bcd};
use crate::regs::{
    apply_op, is_register_file, lemma_run_append, lemma_run_len, lemma_run_one, lemma_run_two, run,
    RegOp,
};
use crate::rtc::RTCRawTime;

verus! {

/// Time registers, seconds first.
pub const SD_TIME: u8 = 0x00;
/// Alarm time registers.
pub const SD_ALARM: u8 = 0x07;
/// Alarm allow register.
pub const SD_ALARM_ALLOW: u8 = 0x0E;
/// Control register 1.
pub const SD_CTR1: u8 = 0x0F;
/// Control register 2.
pub const SD_CTR2: u8 = 0x10;
/// Control register 3.
pub const SD_CTR3: u8 = 0x11;
/// Backup battery charging register.
pub const SD_CHARGE: u8 = 0x18;
/// Backup battery flags register.
pub const SD_BAT_FLAGS: u8 = 0x1A;

/// SD3078, rtc chip, on an I2C bus and address.
#[derive(Clone, Copy, Debug, PartialEq, Eq)]
pub struct SD3078 {
    pub i2c_bus: u8,
    pub i2c_addr: u16,
}

/// Lift the write protection: WRTC1 in CTR2, WRTC2 and WRTC3 in CTR1.
pub open spec fn enable_write_ops() -> Seq<RegOp> {
    seq![
        RegOp::Update { reg: SD_CTR2, keep: 0xFF, set: 0x80 },
        RegOp::Update { reg: SD_CTR1, keep: 0xFF, set: 0x84 },
    ]
}

/// Restore the write protection.
pub open spec fn disable_write_ops() -> Seq<RegOp> {
    seq![
        RegOp::Update { reg: SD_CTR1, keep: 0x7B, set: 0x00 },
        RegOp::Update { reg: SD_CTR2, keep: 0x7F, set: 0x00 },
    ]
}

/// `body` run with the write protection lifted.
pub open spec fn unprotected(body: Seq<RegOp>) -> Seq<RegOp> {
    enable_write_ops() + body + disable_write_ops()
}

/// CTR2 - INTS1=0, INTS0=1, INTFE=0
pub open spec fn disable_frequency_alarm_ops() -> Seq<RegOp> {
    unprotected(seq![RegOp::Update { reg: SD_CTR2, keep: 0b1101_1110, set: 0b0001_0000 }])
}

/// CTR3 - 1/2Hz (FS3=1, FS2=0, FS1=1, FS0=1); CTR2 - INTS1=1, INTS0=0,
/// INTFE=1, INTAE and INTDE off.
pub open spec fn enable_frequency_alarm_ops() -> Seq<RegOp> {
    unprotected(
        seq![
            RegOp::Update { reg: SD_CTR3, keep: 0b1111_1011, set: 0b0000_1011 },
            RegOp::Update { reg: SD_CTR2, keep: 0b1110_1001, set: 0b0010_0001 },
        ],
    )
}

/// CTR2 - INTS1=0, INTS0=1, INTDE=0, INTAE=1, INTFE=0; the alarm compares
/// weekday, hour, minute and second.
pub open spec fn alarm_on_ops() -> Seq<RegOp> {
    seq![
        RegOp::Update { reg: SD_CTR2, keep: 0b1101_1010, set: 0b0101_0010 },
        RegOp::Write { reg: SD_ALARM_ALLOW, value: 0b0000_1111 },
    ]
}

pub open spec fn enable_alarm_ops() -> Seq<RegOp> {
    unprotected(alarm_on_ops())
}

/// CTR2 cleared of INTS1, nothing compared by the alarm.
pub open spec fn disable_alarm_ops() -> Seq<RegOp> {
    unprotected(
        seq![
            RegOp::Update { reg: SD_CTR2, keep: 0b1101_1111, set: 0b0101_0010 },
            RegOp::Write { reg: SD_ALARM_ALLOW, value: 0 },
        ],
    )
}

/// Clear INTDF and INTAF of CTR1 when the alarm flag was read as set.
pub open spec fn clear_alarm_flag_ops(flag_set: bool) -> Seq<RegOp> {
    if flag_set {
        unprotected(seq![RegOp::Update { reg: SD_CTR1, keep: 0b1100_1111, set: 0 }])
    } else {
        Seq::empty()
    }
}

/// Backup battery charging on (0x82) or off (0x02).
pub open spec fn toggle_charging_ops(enable: bool) -> Seq<RegOp> {
    unprotected(seq![RegOp::Write { reg: SD_CHARGE, value: if enable { 0x82 } else { 0x02 } }])
}

/// `ops` writes the time `t` (hour register marked 24-hour) with the write
/// protection lifted.
pub open spec fn is_write_time_ops(ops: Seq<RegOp>, t: Seq<u8>) -> bool {
    &&& ops.len() == 5
    &&& ops.take(2) == enable_write_ops()
    &&& ops.skip(3) == disable_write_ops()
    &&& ops[2] matches RegOp::BlockWrite { start, data } && start == SD_TIME && data@ == t.update(
        2,
        t[2] | 0x80,
    )
}

/// `ops` writes the alarm time `t` with the weekday register replaced by
/// `repeat`, then switches the alarm on, with the write protection lifted.
pub open spec fn is_set_alarm_ops(ops: Seq<RegOp>, t: Seq<u8>, repeat: u8) -> bool {
    &&& ops.len() == 7
    &&& ops.take(2) == enable_write_ops()
    &&& ops.subrange(3, 5) == alarm_on_ops()
    &&& ops.skip(5) == disable_write_ops()
    &&& ops[2] matches RegOp::BlockWrite { start, data } && start == SD_ALARM && data@ == t.update(
        3,
        repeat,
    )
}

/// Hour register in 24-hour form: bit 7 marks 24-hour mode; in 12-hour mode
/// bit 5 marks the afternoon.
pub open spec fn hour_24(b: u8) -> u8 {
    if b & 0x80 != 0 {
        b & 0x7F
    } else if b & 0x20 != 0 {
        bcd_of((bcd_value(b & 0x1F) + 12) as u8)
    } else {
        b
    }
}

/// Time read from the time registers.
pub open spec fn time_of_regs(bcd: Seq<u8>) -> Seq<u8> {
    bcd.update(2, hour_24(bcd[2]))
}

/// Alarm time read from the alarm registers: always 24hr, on 2000-01-01.
pub open spec fn alarm_time_of_regs(bcd: Seq<u8>) -> Seq<u8> {
    bcd.update(2, bcd[2] & 0x3F).update(4, 1).update(5, 1).update(6, 0)
}

pub open spec fn alarm_flag_of(ctr1: u8) -> bool {
    ctr1 & 0x20 != 0 || ctr1 & 0x10 != 0
}

pub open spec fn alarm_enabled_of(alarm_allow: u8, ctr2: u8) -> bool {
    alarm_allow & 0x07 != 0 && ctr2 & 0x02 != 0
}

/// What `SD3078::init` runs before a wake up alarm.
pub open spec fn init_head_ops(alarm_flag: bool, auto_power_on: Option<bool>) -> Seq<RegOp> {
    clear_alarm_flag_ops(alarm_flag) + if auto_power_on == Some(true) {
        enable_frequency_alarm_ops()
    } else {
        disable_frequency_alarm_ops()
    }
}

fn push_enable_write(ops: &mut Vec<RegOp>)
    ensures
        final(ops)@ == old(ops)@ + enable_write_ops(),
{
    ops.push(RegOp::Update { reg: SD_CTR2, keep: 0xFF, set: 0x80 });
    ops.push(RegOp::Update { reg: SD_CTR1, keep: 0xFF, set: 0x84 });
    assert(ops@ =~= old(ops)@ + enable_write_ops());
}

fn push_disable_write(ops: &mut Vec<RegOp>)
    ensures
        final(ops)@ == old(ops)@ + disable_write_ops(),
{
    ops.push(RegOp::Update { reg: SD_CTR1, keep: 0b0111_1011, set: 0 });
    ops.push(RegOp::Update { reg: SD_CTR2, keep: 0b0111_1111, set: 0 });
    assert(ops@ =~= old(ops)@ + disable_write_ops());
}

fn unprotected_program(body: Vec<RegOp>) -> (ops: Vec<RegOp>)
    ensures
        ops@ == unprotected(body@),
{
    let mut ops: Vec<RegOp> = Vec::new();
    push_enable_write(&mut ops);
    let mut i: usize = 0;
    while i < body.len()
        invariant
            i <= body@.len(),
            ops@ == enable_write_ops() + body@.take(i as int),
        decreases body@.len() - i,
    {
        ops.push(body[i]);
        i = i + 1;
        assert(ops@ =~= enable_write_ops() + body@.take(i as int));
    }
    assert(body@.take(i as int) =~= body@);
    push_disable_write(&mut ops);
    ops
}

impl SD3078 {
    /// The chip at `i2c_addr` on bus `i2c_bus`.
    pub fn new(i2c_bus: u8, i2c_addr: u16) -> (s: Self)
        ensures
            s.i2c_bus == i2c_bus,
            s.i2c_addr == i2c_addr,
    {
        SD3078 { i2c_bus, i2c_addr }
    }

    /// Disable frequency alarm
    pub fn disable_frequency_alarm(&self) -> (ops: Vec<RegOp>)
        ensures
            ops@ == disable_frequency_alarm_ops(),
    {
        let mut body: Vec<RegOp> = Vec::new();
        body.push(RegOp::Update { reg: SD_CTR2, keep: 0b1101_1110, set: 0b0001_0000 });
        assert(body@ =~= seq![RegOp::Update { reg: SD_CTR2, keep: 0b1101_1110, set: 0b0001_0000 }]);
        unprotected_program(body)
    }

    /// Set frequency alarm in auto_power_on, 1/2Hz
    pub fn enable_frequency_alarm(&self) -> (ops: Vec<RegOp>)
        ensures
            ops@ == enable_frequency_alarm_ops(),
    {
        let mut body: Vec<RegOp> = Vec::new();
        body.push(RegOp::Update { reg: SD_CTR3, keep: 0b1111_1011, set: 0b0000_1011 });
        body.push(RegOp::Update { reg: SD_CTR2, keep: 0b1110_1001, set: 0b0010_0001 });
        assert(body@ =~= seq![
            RegOp::Update { reg: SD_CTR3, keep: 0b1111_1011, set: 0b0000_1011 },
            RegOp::Update { reg: SD_CTR2, keep: 0b1110_1001, set: 0b0010_0001 },
        ]);
        unprotected_program(body)
    }

    pub fn enable_alarm(&self) -> (ops: Vec<RegOp>)
        ensures
            ops@ == enable_alarm_ops(),
    {
        let mut body: Vec<RegOp> = Vec::new();
        body.push(RegOp::Update { reg: SD_CTR2, keep: 0b1101_1010, set: 0b0101_0010 });
        body.push(RegOp::Write { reg: SD_ALARM_ALLOW, value: 0b0000_1111 });
        assert(body@ =~= alarm_on_ops());
        unprotected_program(body)
    }

    /// Disable alarm
    pub fn disable_alarm(&self) -> (ops: Vec<RegOp>)
        ensures
            ops@ == disable_alarm_ops(),
    {
        let mut body: Vec<RegOp> = Vec::new();
        body.push(RegOp::Update { reg: SD_CTR2, keep: 0b1101_1111, set: 0b0101_0010 });
        body.push(RegOp::Write { reg: SD_ALARM_ALLOW, value: 0 });
        assert(body@ =~= seq![
            RegOp::Update { reg: SD_CTR2, keep: 0b1101_1111, set: 0b0101_0010 },
            RegOp::Write { reg: SD_ALARM_ALLOW, value: 0 },
        ]);
        unprotected_program(body)
    }

    /// Read battery charging flag, from the charging register.
    pub fn read_battery_charging_flag(&self, v: u8) -> (r: bool)
        ensures
            r == (v & 0x80 != 0),
    {
        v & 0b1000_0000 != 0
    }

    /// Whether the alarm compares any field, from the alarm allow register;
    /// when it does not, the alarm is off and CTR2 need not be read.
    pub fn alarm_allowed(&self, alarm_allow: u8) -> (r: bool)
        ensures
            r == (alarm_allow & 0x07 != 0),
    {
        alarm_allow & 0b0000_0111 != 0
    }

    /// Check alarm enabled, from the alarm allow register and CTR2.
    pub fn read_alarm_enabled(&self, alarm_allow: u8, ctr2: u8) -> (r: bool)
        ensures
            r == alarm_enabled_of(alarm_allow, ctr2),
    {
        if alarm_allow & 0b0000_0111 == 0 {
            return false;
        }
        if ctr2 & 0b0000_0010 == 0 {
            return false;
        }
        true
    }

    /// Setup at start: clear a pending alarm flag, then either the frequency
    /// alarm (auto power on) or no frequency alarm and the wake up alarm.
    pub fn init(&self, alarm_flag: bool, auto_power_on: Option<bool>, wake: Option<(RTCRawTime, u8)>) -> (ops: Vec<RegOp>)
        ensures
            ({
                let head = init_head_ops(alarm_flag, auto_power_on);
                &&& ops@.take(head.len() as int) == head
                &&& (auto_power_on == Some(true) || wake is None) ==> ops@.len() == head.len()
                &&& (auto_power_on != Some(true) && wake is Some) ==> is_set_alarm_ops(
                    ops@.skip(head.len() as int),
                    wake.unwrap().0.0@,
                    wake.unwrap().1,
                )
            }),
    {
        let mut ops = self.clear_alarm_flag(alarm_flag);
        let ghost first = ops@;
        let rest = if auto_power_on == Some(true) {
            self.enable_frequency_alarm()
        } else {
            self.disable_frequency_alarm()
        };
        let mut i: usize = 0;
        while i < rest.len()
            invariant
                i <= rest@.len(),
                ops@ == first + rest@.take(i as int),
            decreases rest@.len() - i,
        {
            ops.push(rest[i]);
            i = i + 1;
            assert(ops@ =~= first + rest@.take(i as int));
        }
        assert(rest@.take(i as int) =~= rest@);
        let ghost head = ops@;
        assert(head == init_head_ops(alarm_flag, auto_power_on));
        if auto_power_on != Some(true) {
            if let Some((t, r)) = wake {
                let alarm = self.set_alarm(t, r);
                let mut k: usize = 0;
                while k < alarm.len()
                    invariant
                        k <= alarm@.len(),
                        ops@ == head + alarm@.take(k as int),
                    decreases alarm@.len() - k,
                {
                    ops.push(alarm[k]);
                    k = k + 1;
                    assert(ops@ =~= head + alarm@.take(k as int));
                }
                assert(alarm@.take(k as int) =~= alarm@);
                assert(ops@.skip(head.len() as int) =~= alarm@);
            }
        }
        assert(ops@.take(head.len() as int) =~= head);
        ops
    }

    /// Time from the seven time registers, with a 12-hour hour turned into 24-hour.
    pub fn read_time(&self, bcd_time: [u8; 7]) -> (t: RTCRawTime)
        ensures
            t.0@ == time_of_regs(bcd_time@),
    {
        let b = bcd_time[2];
        let hour: u8 = if b & 0b1000_0000 != 0 {
            b & 0b0111_1111
        } else if b & 0b0010_0000 != 0 {
            let h = b & 0b0001_1111;
            assert((b & 0x1F) <= 31) by (bit_vector);
            let hour = bcd_to_dec(h);
            assert(hour <= 25) by {
                assert(h % 16 <= 15 && h / 16 <= 1);
            }
            let hour = hour + 12;
            dec_to_bcd(hour)
        } else {
            b
        };
        let t = RTCRawTime(
            [bcd_time[0], bcd_time[1], hour, bcd_time[3], bcd_time[4], bcd_time[5], bcd_time[6]],
        );
        assert(t.0@ =~= time_of_regs(bcd_time@));
        t
    }

    /// Write time
    pub fn write_time(&self, t: RTCRawTime) -> (ops: Vec<RegOp>)
        ensures
            is_write_time_ops(ops@, t.0@),
    {
        let a = t.0;
        let data: [u8; 7] = [a[0], a[1], a[2] | 0b1000_0000, a[3], a[4], a[5], a[6]];
        assert(data@ =~= a@.update(2, a@[2] | 0x80));
        let mut ops: Vec<RegOp> = Vec::new();
        push_enable_write(&mut ops);
        ops.push(RegOp::BlockWrite { start: SD_TIME, data });
        push_disable_write(&mut ops);
        assert(ops@.take(2) =~= enable_write_ops());
        assert(ops@.skip(3) =~= disable_write_ops());
        ops
    }

    /// Alarm time from the seven alarm registers.
    pub fn read_alarm_time(&self, bcd_time: [u8; 7]) -> (t: RTCRawTime)
        ensures
            t.0@ == alarm_time_of_regs(bcd_time@),
    {
        let t = RTCRawTime(
            [bcd_time[0], bcd_time[1], bcd_time[2] & 0b0011_1111, bcd_time[3], 1, 1, 0],
        );
        assert(t.0@ =~= alarm_time_of_regs(bcd_time@));
        t
    }

    /// Set alarm, weekday_repeat from sunday 0-6
    pub fn set_alarm(&self, t: RTCRawTime, weekday_repeat: u8) -> (ops: Vec<RegOp>)
        ensures
            is_set_alarm_ops(ops@, t.0@, weekday_repeat),
    {
        let a = t.0;
        let data: [u8; 7] = [a[0], a[1], a[2], weekday_repeat, a[4], a[5], a[6]];
        assert(data@ =~= a@.update(3, weekday_repeat));
        let mut ops: Vec<RegOp> = Vec::new();
        push_enable_write(&mut ops);
        ops.push(RegOp::BlockWrite { start: SD_ALARM, data });
        ops.push(RegOp::Update { reg: SD_CTR2, keep: 0b1101_1010, set: 0b0101_0010 });
        ops.push(RegOp::Write { reg: SD_ALARM_ALLOW, value: 0b0000_1111 });
        push_disable_write(&mut ops);
        assert(ops@.take(2) =~= enable_write_ops());
        assert(ops@.subrange(3, 5) =~= alarm_on_ops());
        assert(ops@.skip(5) =~= disable_write_ops());
        ops
    }

    pub fn toggle_alarm_enable(&self, enable: bool) -> (ops: Vec<RegOp>)
        ensures
            ops@ == if enable { enable_alarm_ops() } else { disable_alarm_ops() },
    {
        if !enable {
            self.disable_alarm()
        } else {
            self.enable_alarm()
        }
    }

    /// Read alarm flag, from CTR1: INTDF or INTAF.
    pub fn read_alarm_flag(&self, ctr1: u8) -> (r: bool)
        ensures
            r == alarm_flag_of(ctr1),
    {
        if ctr1 & 0b0010_0000 != 0 || ctr1 & 0b0001_0000 != 0 {
            return true;
        }
        false
    }

    /// Clear alarm flag; nothing to do unless the flag was read as set.
    pub fn clear_alarm_flag(&self, flag_set: bool) -> (ops: Vec<RegOp>)
        ensures
            ops@ == clear_alarm_flag_ops(flag_set),
    {
        if flag_set {
            let mut body: Vec<RegOp> = Vec::new();
            body.push(RegOp::Update { reg: SD_CTR1, keep: 0b1100_1111, set: 0 });
            assert(body@ =~= seq![RegOp::Update { reg: SD_CTR1, keep: 0b1100_1111, set: 0 }]);
            unprotected_program(body)
        } else {
            let ops: Vec<RegOp> = Vec::new();
            assert(ops@ =~= clear_alarm_flag_ops(flag_set));
            ops
        }
    }

    pub fn toggle_frequency_alarm(&self, enable: bool) -> (ops: Vec<RegOp>)
        ensures
            ops@ == if enable { enable_frequency_alarm_ops() } else { disable_frequency_alarm_ops() },
    {
        if !enable {
            self.disable_frequency_alarm()
        } else {
            self.enable_frequency_alarm()
        }
    }

    /// Force shutdown: no frequency alarm that would wake the board again.
    pub fn force_shutdown(&self) -> (ops: Vec<RegOp>)
        ensures
            ops@ == disable_frequency_alarm_ops(),
    {
        self.disable_frequency_alarm()
    }

    /// Read battery low flag
    pub fn read_battery_low_flag(&self, v: u8) -> (r: bool)
        ensures
            r == (v & 0x01 != 0),
    {
        v & 0b0000_0001 != 0
    }

    /// Toggle rtc battery charging
    pub fn toggle_charging(&self, enable: bool) -> (ops: Vec<RegOp>)
        ensures
            ops@ == toggle_charging_ops(enable),
    {
        assert(0x82u8 & 0x7Fu8 == 0x02u8) by (bit_vector);
        let v: u8 = if enable {
            0x82
        } else {
            0x82 & 0b0111_1111
        };
        let mut body: Vec<RegOp> = Vec::new();
        body.push(RegOp::Write { reg: SD_CHARGE, value: v });
        assert(body@ =~= seq![RegOp::Write { reg: SD_CHARGE, value: if enable { 0x82 } else { 0x02 } }]);
        unprotected_program(body)
    }

    /// Read battery high flag
    pub fn read_battery_high_flag(&self, v: u8) -> (r: bool)
        ensures
            r == (v & 0x02 != 0),
    {
        v & 0b0000_0010 != 0
    }
}

} // verus!

verus! {

proof fn lemma_unprotected_split(regs: Seq<u8>, body: Seq<RegOp>)
    requires
        is_register_file(regs),
    ensures
        run(regs, unprotected(body)) == run(run(run(regs, enable_write_ops()), body), disable_write_ops()),
        is_register_file(run(regs, enable_write_ops())),
        is_register_file(run(run(regs, enable_write_ops()), body)),
{
    lemma_run_append(regs, enable_write_ops() + body, disable_write_ops());
    lemma_run_append(regs, enable_write_ops(), body);
    lemma_run_len(regs, enable_write_ops());
    lemma_run_len(run(regs, enable_write_ops()), body);
}

/// Registers after the write protection is restored.
proof fn lemma_disable_write(regs: Seq<u8>)
    requires
        is_register_file(regs),
    ensures
        ({
            let r = run(regs, disable_write_ops());
            &&& is_register_file(r)
            &&& r[SD_CTR1 as int] == regs[SD_CTR1 as int] & 0x7B
            &&& r[SD_CTR2 as int] == regs[SD_CTR2 as int] & 0x7F
            &&& forall|i: int| 0 <= i < 256 && i != SD_CTR1 && i != SD_CTR2 ==> #[trigger] r[i] == regs[i]
        }),
{
    lemma_run_two(
        regs,
        RegOp::Update { reg: SD_CTR1, keep: 0x7B, set: 0x00 },
        RegOp::Update { reg: SD_CTR2, keep: 0x7F, set: 0x00 },
    );
    let a = regs[SD_CTR1 as int];
    let b = regs[SD_CTR2 as int];
    assert((a & 0x7B) | 0 == a & 0x7B) by (bit_vector);
    assert((b & 0x7F) | 0 == b & 0x7F) by (bit_vector);
}

/// Registers after the write protection is lifted.
proof fn lemma_enable_write(regs: Seq<u8>)
    requires
        is_register_file(regs),
    ensures
        ({
            let r = run(regs, enable_write_ops());
            &&& is_register_file(r)
            &&& forall|i: int| 0 <= i < 256 && i != SD_CTR1 && i != SD_CTR2 ==> #[trigger] r[i] == regs[i]
        }),
{
    lemma_run_two(
        regs,
        RegOp::Update { reg: SD_CTR2, keep: 0xFF, set: 0x80 },
        RegOp::Update { reg: SD_CTR1, keep: 0xFF, set: 0x84 },
    );
}

/// Every SD3078 program that lifts the write protection restores it at the end.
pub proof fn law_write_protection_restored(regs: Seq<u8>, body: Seq<RegOp>)
    requires
        is_register_file(regs),
    ensures
        ({
            let r = run(regs, unprotected(body));
            r[SD_CTR1 as int] & 0x84 == 0 && r[SD_CTR2 as int] & 0x80 == 0
        }),
{
    lemma_unprotected_split(regs, body);
    let mid = run(run(regs, enable_write_ops()), body);
    lemma_disable_write(mid);
    let a = mid[SD_CTR1 as int];
    let b = mid[SD_CTR2 as int];
    assert((a & 0x7B) & 0x84 == 0) by (bit_vector);
    assert((b & 0x7F) & 0x80 == 0) by (bit_vector);
}

/// Switching the alarm on or off is what reading the alarm state reports.
pub proof fn law_alarm_switch(regs: Seq<u8>, enable: bool)
    requires
        is_register_file(regs),
    ensures
        ({
            let r = run(regs, if enable { enable_alarm_ops() } else { disable_alarm_ops() });
            alarm_enabled_of(r[SD_ALARM_ALLOW as int], r[SD_CTR2 as int]) == enable
        }),
{
    let body = if enable {
        alarm_on_ops()
    } else {
        seq![
            RegOp::Update { reg: SD_CTR2, keep: 0b1101_1111, set: 0b0101_0010 },
            RegOp::Write { reg: SD_ALARM_ALLOW, value: 0 },
        ]
    };
    lemma_unprotected_split(regs, body);
    let r1 = run(regs, enable_write_ops());
    lemma_run_two(r1, body[0], body[1]);
    assert(body =~= seq![body[0], body[1]]);
    let mid = run(r1, body);
    lemma_disable_write(mid);
    let c = r1[SD_CTR2 as int];
    assert(((((c & 0xDA) | 0x52) & 0x7F) & 0x02) != 0) by (bit_vector);
    assert((0x0Fu8 & 0x07u8) != 0) by (bit_vector);
    assert((0u8 & 0x07u8) == 0) by (bit_vector);
}

/// A pending alarm flag is gone after it is cleared.
pub proof fn law_clear_alarm_flag(regs: Seq<u8>)
    requires
        is_register_file(regs),
    ensures
        !alarm_flag_of(run(regs, clear_alarm_flag_ops(true))[SD_CTR1 as int]),
{
    let body = seq![RegOp::Update { reg: SD_CTR1, keep: 0b1100_1111, set: 0 }];
    lemma_unprotected_split(regs, body);
    let r1 = run(regs, enable_write_ops());
    lemma_run_one(r1, body[0]);
    let mid = run(r1, body);
    lemma_disable_write(mid);
    let c = r1[SD_CTR1 as int];
    assert((((c & 0xCF) | 0) & 0x7B) & 0x20 == 0 && (((c & 0xCF) | 0) & 0x7B) & 0x10 == 0) by (bit_vector);
}

/// The backup battery charging flag reads back what was toggled.
pub proof fn law_toggle_charging(regs: Seq<u8>, enable: bool)
    requires
        is_register_file(regs),
    ensures
        (run(regs, toggle_charging_ops(enable))[SD_CHARGE as int] & 0x80 != 0) == enable,
{
    let body = seq![RegOp::Write { reg: SD_CHARGE, value: if enable { 0x82u8 } else { 0x02u8 } }];
    lemma_unprotected_split(regs, body);
    let r1 = run(regs, enable_write_ops());
    lemma_run_one(r1, body[0]);
    let mid = run(r1, body);
    lemma_disable_write(mid);
    assert(0x82u8 & 0x80u8 != 0 && 0x02u8 & 0x80u8 == 0) by (bit_vector);
}

/// A 24-hour time written to the clock reads back unchanged.
pub proof fn law_write_time_read_back(regs: Seq<u8>, ops: Seq<RegOp>, t: Seq<u8>)
    requires
        is_register_file(regs),
        t.len() == 7,
        is_write_time_ops(ops, t),
        t[2] & 0x80 == 0,
    ensures
        time_of_regs(run(regs, ops).take(7)) == t,
{
    let block = ops[2];
    assert(ops =~= enable_write_ops() + seq![block] + disable_write_ops());
    lemma_unprotected_split(regs, seq![block]);
    let r1 = run(regs, enable_write_ops());
    lemma_enable_write(regs);
    lemma_run_one(r1, block);
    let mid = run(r1, seq![block]);
    lemma_disable_write(mid);
    let r = run(regs, ops);
    let h = t[2];
    assert((h | 0x80) & 0x80 != 0 && (h | 0x80) & 0x7F == h) by (bit_vector)
        requires
            h & 0x80 == 0,
    ;
    assert(time_of_regs(r.take(7)) =~= t);
}

/// The alarm written to the clock reads back as its hour (24-hour bits),
/// minute and second with the weekday repeat mask, on 2000-01-01, and the
/// alarm is on.
pub proof fn law_set_alarm_read_back(regs: Seq<u8>, ops: Seq<RegOp>, t: Seq<u8>, repeat: u8)
    requires
        is_register_file(regs),
        t.len() == 7,
        is_set_alarm_ops(ops, t, repeat),
    ensures
        ({
            let r = run(regs, ops);
            &&& alarm_time_of_regs(r.subrange(7, 14)) == seq![t[0], t[1], t[2] & 0x3F, repeat, 1u8, 1u8, 0u8]
            &&& alarm_enabled_of(r[SD_ALARM_ALLOW as int], r[SD_CTR2 as int])
        }),
{
    let block = ops[2];
    let body = seq![block] + alarm_on_ops();
    assert(ops =~= enable_write_ops() + body + disable_write_ops());
    lemma_unprotected_split(regs, body);
    let r1 = run(regs, enable_write_ops());
    lemma_enable_write(regs);
    lemma_run_append(r1, seq![block], alarm_on_ops());
    lemma_run_one(r1, block);
    let r2 = apply_op(r1, block);
    assert(is_register_file(r2));
    lemma_run_two(
        r2,
        RegOp::Update { reg: SD_CTR2, keep: 0b1101_1010, set: 0b0101_0010 },
        RegOp::Write { reg: SD_ALARM_ALLOW, value: 0b0000_1111 },
    );
    let mid = run(r1, body);
    lemma_disable_write(mid);
    let r = run(regs, ops);
    let c = r2[SD_CTR2 as int];
    assert(((((c & 0xDA) | 0x52) & 0x7F) & 0x02) != 0) by (bit_vector);
    assert((0x0Fu8 & 0x07u8) != 0) by (bit_vector);
    assert(alarm_time_of_regs(r.subrange(7, 14)) =~= seq![t[0], t[1], t[2] & 0x3F, repeat, 1u8, 1u8, 0u8]);
}

} // verus!
