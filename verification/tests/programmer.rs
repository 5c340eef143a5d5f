use pisugar::programmer::{
    boot_step, bytes_word, confirmed, flash_busy, flash_failed, flash_write_request,
    is_bootloader_file, is_server_process, parse_u16, pos_before, to_u16, word_bytes, BootStep,
};

#[test]
fn programmer_numeric_arguments() {
    assert_eq!(to_u16("0x57"), 0x57);
    assert_eq!(to_u16("0X57"), 0x57);
    assert_eq!(to_u16("1"), 1);
    assert_eq!(to_u16("0x0x10"), 0x10);
    assert_eq!(to_u16("+12"), 12);
    assert_eq!(parse_u16("65535"), Some(65535));
    assert_eq!(parse_u16("65536"), None);
    assert_eq!(parse_u16("0xg"), None);
    assert_eq!(parse_u16("0x"), None);
    assert_eq!(parse_u16("-1"), None);
    assert_eq!(parse_u16("0x0X1"), None);
}

#[test]
fn segment_words() {
    assert_eq!(word_bytes(0x1234), (0x12, 0x34));
    assert_eq!(bytes_word(0x12, 0x34), 0x1234);
    for x in [0u16, 1, 255, 256, 512, 65535] {
        let (h, l) = word_bytes(x);
        assert_eq!(bytes_word(h, l), x);
    }
    assert_eq!(pos_before(0), 0xffff);
    assert_eq!(pos_before(512), 511);
}

#[test]
fn flash_control() {
    assert_eq!(flash_write_request(0x00), 0xa0);
    assert_eq!(flash_write_request(0x01), 0xa1);
    assert!(flash_busy(0x08));
    assert!(!flash_busy(0xf7));
    assert!(flash_failed(0x01));
    assert!(!flash_failed(0xa0));
}

#[test]
fn bootloader_handshake() {
    assert_eq!(boot_step(Some(3), Some(0xf0), false, false), BootStep::Ready);
    assert_eq!(boot_step(Some(3), Some(0x0f), true, false), BootStep::ResetThenRetry);
    assert_eq!(boot_step(Some(3), Some(0x0f), false, false), BootStep::Retry);
    assert_eq!(boot_step(Some(3), Some(0xba), false, true), BootStep::Ready);
    assert_eq!(boot_step(Some(3), Some(0xba), false, false), BootStep::NeedBootloaderFile);
    assert_eq!(boot_step(Some(2), Some(0xf0), false, false), BootStep::Retry);
    assert_eq!(boot_step(None, None, true, true), BootStep::Retry);
    assert_eq!(boot_step(Some(3), None, true, true), BootStep::Retry);
    assert!(is_bootloader_file("pisugar-3-bootloader.bin"));
    assert!(!is_bootloader_file("pisugar-3-application.bin"));
}

#[test]
fn warning_answers() {
    assert!(confirmed("y"));
    assert!(confirmed("  Yes"));
    assert!(confirmed("\t\u{3000}y"));
    assert!(!confirmed("n"));
    assert!(!confirmed(""));
    assert!(!confirmed("  "));
    assert!(!confirmed("ok y"));
    assert!(is_server_process("pisugar-server"));
    assert!(!is_server_process("pisugar-poweroff"));
}
