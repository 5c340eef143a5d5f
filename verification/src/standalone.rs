//! The register programs of the standalone core tool, which drives the SD3078
//! clock and the IP5209 battery chip of a PiSugar 2 directly.

use vstd::prelude::*;

use crate::regs::RegOp;
use crate::sd3078::{SD_ALARM, SD_ALARM_ALLOW, SD_CTR1, SD_CTR2, SD_TIME};

verus! {

/// Shutdown threshold: 12 steps (bits 3..=7) of the light load current, the shortest
/// time, light load shutdown enabled.
pub open spec fn shutdown_threshold_ops() -> Seq<RegOp> {
    seq![
        RegOp::Update { reg: 0x0c, keep: 0b0000_0111, set: 0b0110_0000 },
        RegOp::Update { reg: 0x04, keep: 0b0011_1111, set: 0 },
        RegOp::Update { reg: 0x02, keep: 0xff, set: 0b0000_0011 },
    ]
}

pub fn bat_set_shutdown_threshold() -> (ops: Vec<RegOp>)
    ensures
        ops@ == shutdown_threshold_ops(),
{
    let ops = vec![
        RegOp::Update { reg: 0x0c, keep: 0b0000_0111, set: 0b0110_0000 },
        RegOp::Update { reg: 0x04, keep: 0b0011_1111, set: 0 },
        RegOp::Update { reg: 0x02, keep: 0xff, set: 0b0000_0011 },
    ];
    assert(ops@ =~= shutdown_threshold_ops());
    ops
}

/// The button pin as a GPIO input: VSET off, VSET pin as GPIO, GPIO input.
pub open spec fn gpio_ops() -> Seq<RegOp> {
    seq![
        RegOp::Update { reg: 0x26, keep: 0b1011_1111, set: 0 },
        RegOp::Update { reg: 0x52, keep: 0b1111_0111, set: 0b0000_0100 },
        RegOp::Update { reg: 0x53, keep: 0xff, set: 0b0001_0000 },
    ]
}

pub fn bat_set_gpio() -> (ops: Vec<RegOp>)
    ensures
        ops@ == gpio_ops(),
{
    let ops = vec![
        RegOp::Update { reg: 0x26, keep: 0b1011_1111, set: 0 },
        RegOp::Update { reg: 0x52, keep: 0b1111_0111, set: 0b0000_0100 },
        RegOp::Update { reg: 0x53, keep: 0xff, set: 0b0001_0000 },
    ];
    assert(ops@ =~= gpio_ops());
    ops
}

/// Open the clock's write protection: WRTC1 in CTR2, then WRTC2 and WRTC3
/// in CTR1.
pub open spec fn open_ops() -> Seq<RegOp> {
    seq![
        RegOp::Update { reg: SD_CTR2, keep: 0xff, set: 0b1000_0000 },
        RegOp::Update { reg: SD_CTR1, keep: 0xff, set: 0b1000_0100 },
    ]
}

/// Close the clock's write protection, in the reverse order.
pub open spec fn close_ops() -> Seq<RegOp> {
    seq![
        RegOp::Update { reg: SD_CTR1, keep: 0b0111_1011, set: 0 },
        RegOp::Update { reg: SD_CTR2, keep: 0b0111_1111, set: 0 },
    ]
}

pub fn rtc_disable_write_protect() -> (ops: Vec<RegOp>)
    ensures
        ops@ == open_ops(),
{
    let ops = vec![
        RegOp::Update { reg: SD_CTR2, keep: 0xff, set: 0b1000_0000 },
        RegOp::Update { reg: SD_CTR1, keep: 0xff, set: 0b1000_0100 },
    ];
    assert(ops@ =~= open_ops());
    ops
}

pub fn rtc_enable_write_protect() -> (ops: Vec<RegOp>)
    ensures
        ops@ == close_ops(),
{
    let ops = vec![
        RegOp::Update { reg: SD_CTR1, keep: 0b0111_1011, set: 0 },
        RegOp::Update { reg: SD_CTR2, keep: 0b0111_1111, set: 0 },
    ];
    assert(ops@ =~= close_ops());
    ops
}

/// `body` between opening and closing the write protection.
pub open spec fn guarded(body: Seq<RegOp>) -> Seq<RegOp> {
    open_ops() + body + close_ops()
}

fn guarded_program(body: Vec<RegOp>) -> (ops: Vec<RegOp>)
    ensures
        ops@ == guarded(body@),
{
    let mut ops = rtc_disable_write_protect();
    let mut i: usize = 0;
    while i < body.len()
        invariant
            i <= body@.len(),
            ops@ == open_ops() + body@.take(i as int),
        decreases body@.len() - i,
    {
        ops.push(body[i]);
        i = i + 1;
        assert(ops@ =~= open_ops() + body@.take(i as int));
    }
    assert(body@.take(i as int) =~= body@);
    let close = rtc_enable_write_protect();
    ops.push(close[0]);
    ops.push(close[1]);
    assert(ops@ =~= guarded(body@));
    ops
}

/// The alarm flags INTAF or INTDF of CTR1.
pub fn rtc_read_alarm_flag(ctr1: u8) -> (r: bool)
    ensures
        r == (ctr1 & 0x20 != 0 || ctr1 & 0x10 != 0),
{
    ctr1 & 0b0010_0000 != 0 || ctr1 & 0b0001_0000 != 0
}

/// Clear the alarm flags when one is set (`ctr1` as read).
pub fn rtc_clean_alarm_flag(ctr1: u8) -> (ops: Vec<RegOp>)
    ensures
        (ctr1 & 0x20 != 0 || ctr1 & 0x10 != 0) ==> ops@ == guarded(
            seq![RegOp::Update { reg: SD_CTR1, keep: 0b1100_1111, set: 0 }],
        ),
        !(ctr1 & 0x20 != 0 || ctr1 & 0x10 != 0) ==> ops@.len() == 0,
{
    if rtc_read_alarm_flag(ctr1) {
        let body = vec![RegOp::Update { reg: SD_CTR1, keep: 0b1100_1111, set: 0 }];
        assert(body@ =~= seq![RegOp::Update { reg: SD_CTR1, keep: 0b1100_1111, set: 0 }]);
        guarded_program(body)
    } else {
        Vec::new()
    }
}

/// Write the time registers in 24-hour mode (bit 7 of the hour set).
pub fn rtc_write_time(bcd_time: &[u8; 7]) -> (ops: Vec<RegOp>)
    ensures
        ops@.len() == 5,
        ops@ == guarded(seq![ops@[2]]),
        ops@[2] matches RegOp::BlockWrite { start, data } && start == SD_TIME && data@ == bcd_time@.update(
            2,
            bcd_time@[2] | 0x80,
        ),
{
    let mut t = *bcd_time;
    t[2] = t[2] | 0b1000_0000;
    let body = vec![RegOp::BlockWrite { start: SD_TIME, data: t }];
    let ops = guarded_program(body);
    assert(t@ =~= bcd_time@.update(2, bcd_time@[2] | 0x80));
    assert(ops@[2] == body@[0]);
    assert(guarded(seq![ops@[2]]) =~= guarded(body@));
    ops
}

/// The time registers as read, with the hour in 24-hour form: bit 7 (the
/// 24-hour mode) is dropped; in 12-hour mode an afternoon hour gets 12
/// added to the register value.
pub fn rtc_read_time(raw: [u8; 7]) -> (t: [u8; 7])
    ensures
        t@ == raw@.update(
            2,
            if raw@[2] & 0x80 != 0 {
                raw@[2] & 0x7f
            } else if raw@[2] & 0x20 != 0 {
                (raw@[2] + 12) as u8
            } else {
                raw@[2]
            },
        ),
{
    let mut t = raw;
    let h: u8 = t[2];
    if h & 0b1000_0000 != 0 {
        t[2] = h & 0b0111_1111;
    } else if h & 0b0010_0000 != 0 {
        assert(h < 128) by (bit_vector)
            requires
                h & 0x80 == 0,
        ;
        t[2] = h + 12;
    }
    assert(t@ =~= raw@.update(
        2,
        if raw@[2] & 0x80 != 0 {
            raw@[2] & 0x7f
        } else if raw@[2] & 0x20 != 0 {
            (raw@[2] + 12) as u8
        } else {
            raw@[2]
        },
    ));
    t
}

/// Alarm on: alarm interrupt enabled, hours, minutes and seconds compared.
pub open spec fn alarm_set_body(bcd_time: Seq<u8>, weekday_repeat: u8) -> Seq<RegOp> {
    seq![
        RegOp::Update { reg: SD_CTR2, keep: 0b1101_1111, set: 0b0101_0010 },
        RegOp::Write { reg: SD_ALARM_ALLOW, value: 0b0000_0111 },
    ]
}

/// Set the alarm registers (the weekday register holds the repeat mask) and
/// turn the alarm on.
pub fn rtc_set_alarm(bcd_time: &[u8; 7], weekday_repeat: u8) -> (ops: Vec<RegOp>)
    ensures
        ops@.len() == 7,
        ops@ == guarded(seq![ops@[2]] + alarm_set_body(bcd_time@, weekday_repeat)),
        ops@[2] matches RegOp::BlockWrite { start, data } && start == SD_ALARM && data@
            == bcd_time@.update(3, weekday_repeat),
{
    let mut t = *bcd_time;
    t[3] = weekday_repeat;
    let body = vec![
        RegOp::BlockWrite { start: SD_ALARM, data: t },
        RegOp::Update { reg: SD_CTR2, keep: 0b1101_1111, set: 0b0101_0010 },
        RegOp::Write { reg: SD_ALARM_ALLOW, value: 0b0000_0111 },
    ];
    let ops = guarded_program(body);
    assert(t@ =~= bcd_time@.update(3, weekday_repeat));
    assert(ops@[2] == body@[0]);
    assert(seq![ops@[2]] + alarm_set_body(bcd_time@, weekday_repeat) =~= body@);
    ops
}

/// Turn the alarm off: no field is compared any more.
pub fn rtc_disable_alarm() -> (ops: Vec<RegOp>)
    ensures
        ops@ == guarded(
            seq![
                RegOp::Update { reg: SD_CTR2, keep: 0b1101_1111, set: 0b0101_0010 },
                RegOp::Write { reg: SD_ALARM_ALLOW, value: 0 },
            ],
        ),
{
    let body = vec![
        RegOp::Update { reg: SD_CTR2, keep: 0b1101_1111, set: 0b0101_0010 },
        RegOp::Write { reg: SD_ALARM_ALLOW, value: 0 },
    ];
    assert(body@ =~= seq![
        RegOp::Update { reg: SD_CTR2, keep: 0b1101_1111, set: 0b0101_0010 },
        RegOp::Write { reg: SD_ALARM_ALLOW, value: 0 },
    ]);
    guarded_program(body)
}

} // verus!
