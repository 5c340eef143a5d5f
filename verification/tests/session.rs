use pisugar::session::uds_file_mode;
use pisugar::session::{
    auth_passes, exec_command_text, jwt_secret_of, message_lines, request_lines, request_token,
    text_lines, token_expiration, token_unexpired, with_newline,
};

fn words(v: &[&str]) -> Vec<String> {
    v.iter().map(|s| s.to_string()).collect()
}

#[test]
fn stream_lines() {
    assert_eq!(text_lines("get battery\r\nget model\n\n"), words(&["get battery", "get model"]));
    assert_eq!(text_lines("a\nb"), words(&["a", "b"]));
    assert_eq!(text_lines(""), Vec::<String>::new());
    assert_eq!(text_lines("\r\n"), Vec::<String>::new());
    assert_eq!(request_lines(b"get version\n"), words(&["get version"]));
    assert_eq!(request_lines(&[0x61, 0xff, 0x0a]), words(&["a\u{fffd}"]));
    for s in ["x\r\ny\n", "a\r", "\n\nq", "one"] {
        let expected: Vec<String> = s.lines().filter(|l| !l.is_empty()).map(|l| l.to_string()).collect();
        assert_eq!(text_lines(s), expected);
    }
}

#[test]
fn websocket_lines() {
    assert_eq!(message_lines("get battery\n\nget model"), words(&["get battery", "get model"]));
    assert_eq!(message_lines("a\r\n"), words(&["a\r"]));
}

#[test]
fn answer_lines() {
    assert_eq!(with_newline("done".to_string()), "done\n");
    assert_eq!(with_newline("done\n".to_string()), "done\n");
    assert_eq!(with_newline(with_newline("x".to_string())), "x\n");
    assert_eq!(with_newline(String::new()), "\n");
}

#[test]
fn http_requests() {
    assert_eq!(exec_command_text(Some("get model".to_string()), b"ignored"), "get model");
    assert_eq!(exec_command_text(None, b"get battery"), "get battery");
    assert_eq!(request_token(Some("a".to_string()), Some("b".to_string())), Some("a".to_string()));
    assert_eq!(request_token(None, Some("b".to_string())), Some("b".to_string()));
    assert_eq!(request_token(None, None), None);
    assert!(auth_passes(false, None));
    assert!(auth_passes(true, Some(true)));
    assert!(!auth_passes(true, Some(false)));
    assert!(!auth_passes(true, None));
}

#[test]
fn login_tokens() {
    assert_eq!(token_expiration(1_700_000_000, 3600), 1_700_003_600);
    assert!(token_unexpired(100, 100));
    assert!(token_unexpired(101, 100));
    assert!(!token_unexpired(99, 100));
}

#[test]
fn token_secret() {
    let s = jwt_secret_of(&[0u8; 32]);
    assert_eq!(s, "AAAAAAAAAAAAAAAAAAAAAAAAAAAAAAAAAAAAAAAAAAA=");
    let mut b = [0u8; 32];
    for (i, x) in b.iter_mut().enumerate() {
        *x = (i * 7 + 1) as u8;
    }
    let s = jwt_secret_of(&b);
    assert_eq!(s.len(), 44);
    assert!(s.ends_with('='));
}

#[test]
fn socket_file_modes() {
    assert_eq!(uds_file_mode("666"), 0o666);
    assert_eq!(uds_file_mode("600"), 0o600);
    assert_eq!(uds_file_mode("+7"), 0o7);
    assert_eq!(uds_file_mode("8"), 0o666);
    assert_eq!(uds_file_mode(""), 0o666);
    assert_eq!(uds_file_mode("77777777777"), 0o666);
    assert_eq!(uds_file_mode("37777777777"), 0o37777777777);
}
