use pisugar::bcd::{bcd_to_dec, bcd_to_dec_list, dec_to_bcd, dec_to_bcd_list, ensure_bcd};
use pisugar::ip5209::IP5209;
use pisugar::ip5312::IP5312;
use pisugar::pisugar3::{PiSugar3, PiSugar3RTC};
use pisugar::regs::RegOp;
use pisugar::rtc::{RTCRawTime, RtcDateTime};
use pisugar::sd3078::SD3078;

/// Run a register program on a register file, as a chip would.
fn run(regs: &mut [u8; 256], ops: &[RegOp]) {
    for op in ops {
        match *op {
            RegOp::Write { reg, value } => regs[reg as usize] = value,
            RegOp::Update { reg, keep, set } => regs[reg as usize] = (regs[reg as usize] & keep) | set,
            RegOp::BlockWrite { start, data } => {
                for (i, b) in data.iter().enumerate() {
                    regs[start as usize + i] = *b;
                }
            }
            RegOp::ProtectedWrite { reg, value } => {
                regs[0x0b] = 0x29;
                regs[reg as usize] = value;
                regs[0x0b] = 0;
            }
            RegOp::ProtectedUpdate { reg, keep, set } => {
                regs[0x0b] = 0x29;
                regs[reg as usize] = (regs[reg as usize] & keep) | set;
                regs[0x0b] = 0;
            }
        }
    }
}

#[test]
fn bcd_values() {
    assert_eq!(bcd_to_dec(0x59), 59);
    assert_eq!(bcd_to_dec(0x00), 0);
    assert_eq!(dec_to_bcd(59), 0x59);
    assert_eq!(dec_to_bcd(7), 0x07);
    for d in 0..=99u8 {
        assert_eq!(bcd_to_dec(dec_to_bcd(d)), d);
    }
}

#[test]
fn bcd_lists() {
    assert_eq!(bcd_to_dec_list(&vec![0x12, 0x34, 0x99]), vec![12, 34, 99]);
    assert_eq!(dec_to_bcd_list(&vec![12, 34, 99]), vec![0x12, 0x34, 0x99]);
    assert_eq!(dec_to_bcd_list(&vec![]), Vec::<u8>::new());
}

#[test]
fn bcd_ensure_clamps() {
    assert_eq!(ensure_bcd(0x59, 0x59), 0x59);
    assert_eq!(ensure_bcd(0x7f, 0x59), 0x59);
    assert_eq!(ensure_bcd(0xfa, 0x99), 0x99);
    assert_eq!(ensure_bcd(0x23, 0x59), 0x23);
}

#[test]
fn raw_time_fields_and_text() {
    // 2021-03-04 05:06:07, Thursday
    let t = RTCRawTime::from_dec([7, 6, 5, 4, 4, 3, 21]);
    assert_eq!(t.0, [0x07, 0x06, 0x05, 0x04, 0x04, 0x03, 0x21]);
    assert_eq!(t.year(), 2021);
    assert_eq!(t.month(), 3);
    assert_eq!(t.day(), 4);
    assert_eq!(t.weekday(), 4);
    assert_eq!(t.hour(), 5);
    assert_eq!(t.minute(), 6);
    assert_eq!(t.second(), 7);
    assert_eq!(t.to_dec(), [7, 6, 5, 4, 4, 3, 21]);
    assert_eq!(t.to_string(), "[7,6,5,4,4,3,33]");
    assert_eq!(RTCRawTime::from_raw([1, 2, 3, 4, 5, 6, 7]).0, [1, 2, 3, 4, 5, 6, 7]);
}

#[test]
fn raw_time_unix_round_trip() {
    // 2021-03-04T05:06:07Z
    let secs: i64 = 1614834367;
    let t = RTCRawTime::from_unix(secs).unwrap();
    assert_eq!(t.0, [0x07, 0x06, 0x05, 0x04, 0x04, 0x03, 0x21]);
    assert_eq!(t.to_unix(), Ok(secs));
}

#[test]
fn raw_time_invalid_date() {
    // month 13
    let t = RTCRawTime::from_raw([0, 0, 0, 0, 0x01, 0x13, 0x21]);
    assert_eq!(t.to_unix(), Err("Invalid datetime: 2021-13-1 0:0:0".to_string()));
}

#[test]
fn rtc_datetime_fields() {
    let mut t = RtcDateTime::from_raw_bcd(&[0x30, 0x15, 0x92, 0x01, 0x02, 0x03, 0x21]);
    assert_eq!(t.seconds(), 30);
    assert_eq!(t.minus(), 15);
    assert_eq!(t.hour(), 12);
    assert_eq!(t.weekday(), 1);
    assert_eq!(t.day(), 2);
    assert_eq!(t.month(), 3);
    assert_eq!(t.year(), 21);
    t.set_seconds(45);
    t.set_minus(59);
    assert_eq!(t.seconds(), 45);
    assert_eq!(t.minus(), 59);
    let n = RtcDateTime::new();
    assert_eq!(n.0, [0; 7]);
}

#[test]
fn rtc_datetime_twelve_hour_afternoon() {
    // 12 hour mode, bit 5 marks PM: 3 pm
    let t = RtcDateTime::from_raw_bcd(&[0, 0, 0x23, 0, 1, 1, 0]);
    assert_eq!(t.hour(), 15);
}

#[test]
fn sd3078_alarm_switch_reads_back() {
    let rtc = SD3078::new(1, 0x32);
    let mut regs = [0u8; 256];
    run(&mut regs, &rtc.toggle_alarm_enable(true));
    assert!(rtc.read_alarm_enabled(regs[0x0e], regs[0x10]));
    run(&mut regs, &rtc.toggle_alarm_enable(false));
    assert!(!rtc.read_alarm_enabled(regs[0x0e], regs[0x10]));
}

#[test]
fn sd3078_write_protection_restored() {
    let rtc = SD3078::new(1, 0x32);
    let mut regs = [0u8; 256];
    run(&mut regs, &rtc.toggle_charging(true));
    assert_eq!(regs[0x0f] & 0x84, 0);
    assert_eq!(regs[0x10] & 0x80, 0);
    assert_eq!(regs[0x18], 0x82);
    run(&mut regs, &rtc.toggle_charging(false));
    assert_eq!(regs[0x18], 0x82 & 0x7f);
}

#[test]
fn sd3078_time_round_trip() {
    let rtc = SD3078::new(1, 0x32);
    let mut regs = [0u8; 256];
    let t = RTCRawTime::from_dec([7, 6, 17, 4, 4, 3, 21]);
    run(&mut regs, &rtc.write_time(t));
    let mut read = [0u8; 7];
    read.copy_from_slice(&regs[0..7]);
    assert_eq!(rtc.read_time(read), t);
}

#[test]
fn sd3078_alarm_round_trip() {
    let rtc = SD3078::new(1, 0x32);
    let mut regs = [0u8; 256];
    let t = RTCRawTime::from_dec([0, 30, 8, 0, 1, 1, 21]);
    run(&mut regs, &rtc.set_alarm(t, 0b0111_1111));
    let mut read = [0u8; 7];
    read.copy_from_slice(&regs[7..14]);
    let a = rtc.read_alarm_time(read);
    assert_eq!(a.second(), 0);
    assert_eq!(a.minute(), 30);
    assert_eq!(a.hour(), 8);
    assert!(rtc.read_alarm_enabled(regs[0x0e], regs[0x10]));
}

#[test]
fn sd3078_alarm_flag_cleared() {
    let rtc = SD3078::new(1, 0x32);
    let mut regs = [0u8; 256];
    regs[0x0f] = 0b0011_0000;
    assert!(rtc.read_alarm_flag(regs[0x0f]));
    run(&mut regs, &rtc.clear_alarm_flag(true));
    assert!(!rtc.read_alarm_flag(regs[0x0f]));
}

#[test]
fn sd3078_flags() {
    let rtc = SD3078::new(1, 0x32);
    assert!(rtc.read_battery_low_flag(0x01));
    assert!(!rtc.read_battery_low_flag(0x00));
    assert!(rtc.read_battery_charging_flag(0x80));
    assert!(rtc.alarm_allowed(0x07));
    assert!(!rtc.alarm_allowed(0x08));
}

#[test]
fn pisugar3_switches_read_back() {
    let p = PiSugar3::new(1, 0x57);
    let mut regs = [0u8; 256];
    run(&mut regs, &p.toggle_output_enabled(true));
    assert!(p.read_output_enabled(regs[0x02]));
    assert_eq!(regs[0x0b], 0);
    run(&mut regs, &p.toggle_output_enabled(false));
    assert!(!p.read_output_enabled(regs[0x02]));
    run(&mut regs, &p.toggle_soft_poweroff(true));
    assert!(!p.read_soft_poweroff_flag(regs[0x03]));
    regs[0x03] |= 0b0000_1000;
    assert!(p.read_soft_poweroff_flag(regs[0x03]));
    run(&mut regs, &p.clear_soft_poweroff_flag());
    assert!(!p.read_soft_poweroff_flag(regs[0x03]));
}

#[test]
fn pisugar3_values() {
    let p = PiSugar3::new(1, 0x57);
    assert_eq!(p.read_temp(65), 25);
    assert_eq!(p.read_temp(0), -40);
    assert_eq!(p.read_voltage(0x0f, 0xa0), 4000);
    assert_eq!(p.read_output_current(0x01, 0x2c), 300);
    assert_eq!(p.read_tap(0xfe), 2);
    assert!(p.read_write_enable(0x29));
    assert!(!p.read_write_enable(0x28));
}

#[test]
fn pisugar3_rtc_address() {
    let p = PiSugar3::new(1, 0x57);
    assert_eq!(p.set_rtc_addr(0x02), Err("Invalid RTC I2C address".to_string()));
    assert_eq!(p.set_rtc_addr(0x78), Err("Invalid RTC I2C address".to_string()));
    // 0x68 has three bits set: the parity bit is added
    let ops = p.set_rtc_addr(0x68).unwrap();
    assert_eq!(ops, vec![RegOp::ProtectedWrite { reg: 0x51, value: 0xe8 }]);
    // 0x32 has three bits set as well
    let ops = p.set_rtc_addr(0x33).unwrap();
    assert_eq!(ops, vec![RegOp::ProtectedWrite { reg: 0x51, value: 0x33 }]);
}

#[test]
fn pisugar3_app_version() {
    let p = PiSugar3::new(1, 0x57);
    let mut buf = b"1.2.3".to_vec();
    buf.push(0);
    buf.extend_from_slice(&[0x41; 9]);
    assert_eq!(p.read_app_version(&buf), Ok("1.2.3".to_string()));
    let buf = vec![0x41u8; 15];
    assert_eq!(p.read_app_version(&buf), Err("Invalid firmware version".to_string()));
}

#[test]
fn pisugar3_rtc_time_round_trip() {
    let rtc = PiSugar3RTC::new(1, 0x57);
    let mut regs = [0u8; 256];
    let t = RTCRawTime::from_dec([7, 6, 17, 4, 4, 3, 21]);
    run(&mut regs, &rtc.write_time(t));
    let fields = [regs[0x37], regs[0x36], regs[0x35], regs[0x34], regs[0x33], regs[0x32], regs[0x31]];
    assert_eq!(rtc.read_time(fields), t);
}

#[test]
fn ip5209_allow_charging_switch() {
    let b = IP5209::new(1, 0x75);
    let mut regs = [0u8; 256];
    run(&mut regs, &b.toggle_allow_charging(true, true).unwrap());
    assert!(b.is_allow_charging(true, regs[0x55]));
    run(&mut regs, &b.toggle_allow_charging(true, false).unwrap());
    assert!(!b.is_allow_charging(true, regs[0x55]));
    assert!(b.toggle_allow_charging(false, true).is_err());
}

#[test]
fn ip5209_adc_values() {
    let b = IP5209::new(1, 0x75);
    assert_eq!(b.read_voltage(0x10, 0x10), 0x1010);
    // bit 5 of the high register is the sign
    assert_eq!(b.read_voltage(0x10, 0x20), 0x2010 - 0x4000);
    // 14 bit two's complement: 0x3fff is -1
    assert_eq!(b.read_intensity(0xff, 0x3f), -1);
}

#[test]
fn ip5312_allow_charging_switch() {
    let b = IP5312::new(1, 0x75);
    let mut regs = [0u8; 256];
    run(&mut regs, &b.toggle_allow_charging(true, true).unwrap());
    assert!(b.is_allow_charging(true, regs[0x58]));
    run(&mut regs, &b.toggle_allow_charging(true, false).unwrap());
    assert!(!b.is_allow_charging(true, regs[0x58]));
}

#[test]
fn pisugar3_poll_steps() {
    let p = PiSugar3::new(1, 0x57);
    let (tap, reset) = p.tap_step(0xf6);
    assert_eq!(tap, Some(pisugar::tap::TapType::Double));
    assert_eq!(reset, vec![RegOp::ProtectedUpdate { reg: 0x08, keep: 0b1111_1100, set: 0 }]);
    let (tap, reset) = p.tap_step(0xf4);
    assert_eq!(tap, None);
    assert!(reset.is_empty());
    let (req, clear) = p.soft_poweroff_step(0x18);
    assert!(req);
    assert_eq!(clear, vec![RegOp::ProtectedUpdate { reg: 0x03, keep: 0b1111_0111, set: 0 }]);
    let (req, clear) = p.soft_poweroff_step(0x10);
    assert!(!req);
    assert!(clear.is_empty());
}
