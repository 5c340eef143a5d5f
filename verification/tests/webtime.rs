use pisugar::cmds::OffsetTime;
use pisugar::webtime::{web_date, web_time_registers};

#[test]
fn web_date_header_instant() {
    assert_eq!(
        web_date("Wed, 18 Feb 2015 23:16:09 GMT"),
        Some(OffsetTime { timestamp: 1424301369, offset: 0 })
    );
    assert_eq!(
        web_date("Tue, 05 Mar 2024 10:20:30 +0200"),
        Some(OffsetTime { timestamp: 1709626830, offset: 7200 })
    );
    assert_eq!(web_date("2024-03-05T10:20:30+02:00"), None);
    assert_eq!(web_date(""), None);
}

#[test]
fn web_date_clock_registers() {
    let raw = web_time_registers("Tue, 05 Mar 2024 10:20:30 +0200").unwrap();
    assert_eq!(raw.0, [0x30, 0x20, 0x08, 0x02, 0x05, 0x03, 0x24]);
    assert_eq!(raw.to_unix(), Ok(1709626830));
    assert!(web_time_registers("not a date").is_none());
}
