use pisugar::regs::RegOp;
use pisugar::standalone::{
    bat_set_gpio, bat_set_shutdown_threshold, rtc_clean_alarm_flag, rtc_disable_alarm,
    rtc_disable_write_protect, rtc_enable_write_protect, rtc_read_alarm_flag, rtc_read_time,
    rtc_set_alarm, rtc_write_time,
};

fn apply(regs: &mut [u8; 256], ops: &[RegOp]) {
    for op in ops {
        match *op {
            RegOp::Write { reg, value } => regs[reg as usize] = value,
            RegOp::Update { reg, keep, set } => regs[reg as usize] = (regs[reg as usize] & keep) | set,
            RegOp::BlockWrite { start, data } => {
                for (i, b) in data.iter().enumerate() {
                    regs[start as usize + i] = *b;
                }
            }
            _ => panic!("the SD3078 and IP5209 have no write key"),
        }
    }
}

#[test]
fn write_protection_opens_and_closes() {
    let mut regs = [0u8; 256];
    apply(&mut regs, &rtc_disable_write_protect());
    assert_eq!(regs[0x10] & 0x80, 0x80);
    assert_eq!(regs[0x0f] & 0x84, 0x84);
    apply(&mut regs, &rtc_enable_write_protect());
    assert_eq!(regs[0x10] & 0x80, 0);
    assert_eq!(regs[0x0f] & 0x84, 0);
}

#[test]
fn clock_time_in_24_hour_mode() {
    let mut regs = [0u8; 256];
    let t = [0x07, 0x06, 0x17, 0x04, 0x04, 0x03, 0x21];
    apply(&mut regs, &rtc_write_time(&t));
    assert_eq!(regs[2], 0x97);
    let mut read = [0u8; 7];
    read.copy_from_slice(&regs[0..7]);
    assert_eq!(rtc_read_time(read), t);
    // 12 hour mode, afternoon: 12 is added to the register value
    assert_eq!(rtc_read_time([0, 0, 0x23, 0, 1, 1, 0])[2], 0x23 + 12);
    assert_eq!(rtc_read_time([0, 0, 0x09, 0, 1, 1, 0])[2], 0x09);
}

#[test]
fn clock_alarm() {
    let mut regs = [0u8; 256];
    let t = [0x00, 0x30, 0x08, 0x00, 0x01, 0x01, 0x21];
    apply(&mut regs, &rtc_set_alarm(&t, 0x7f));
    assert_eq!(&regs[7..14], &[0x00, 0x30, 0x08, 0x7f, 0x01, 0x01, 0x21]);
    assert_eq!(regs[0x0e], 0x07);
    assert_eq!(regs[0x10] & 0x52, 0x52);
    apply(&mut regs, &rtc_disable_alarm());
    assert_eq!(regs[0x0e], 0);
}

#[test]
fn clock_alarm_flag() {
    assert!(rtc_read_alarm_flag(0x20));
    assert!(rtc_read_alarm_flag(0x10));
    assert!(!rtc_read_alarm_flag(0x8f));
    assert!(rtc_clean_alarm_flag(0x00).is_empty());
    let mut regs = [0u8; 256];
    regs[0x0f] = 0x30;
    let ops = rtc_clean_alarm_flag(regs[0x0f]);
    apply(&mut regs, &ops);
    assert!(!rtc_read_alarm_flag(regs[0x0f]));
}

#[test]
fn battery_chip_setup() {
    let mut regs = [0xffu8; 256];
    apply(&mut regs, &bat_set_shutdown_threshold());
    assert_eq!(regs[0x0c], 0x67);
    assert_eq!(regs[0x04], 0x3f);
    assert_eq!(regs[0x02], 0xff);
    apply(&mut regs, &bat_set_gpio());
    assert_eq!(regs[0x26], 0xbf);
    assert_eq!(regs[0x52], 0xf7);
    assert_eq!(regs[0x53], 0xff);
}
