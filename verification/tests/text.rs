use pisugar::numtext::real_text_ok;
use pisugar::path::path_file_stem;
use pisugar::text::{
    bool_to_string, chars_of, i64_to_string, join_strings, parse_signed_in_range, parse_unsigned,
    text_contains, u64_to_string,
};

fn cs(s: &str) -> Vec<char> {
    s.chars().collect()
}

fn stem(s: &str) -> Option<String> {
    path_file_stem(&cs(s)).map(|v| v.into_iter().collect())
}

#[test]
fn numbers_as_text() {
    assert_eq!(u64_to_string(0), "0");
    assert_eq!(u64_to_string(18446744073709551615), "18446744073709551615");
    assert_eq!(i64_to_string(-42), "-42");
    assert_eq!(i64_to_string(i64::MIN), "-9223372036854775808");
    assert_eq!(bool_to_string(true), "true");
    assert_eq!(bool_to_string(false), "false");
}

#[test]
fn numbers_read_back() {
    assert_eq!(parse_unsigned(&cs("300"), u64::MAX), Some(300));
    assert_eq!(parse_unsigned(&cs("+5"), u64::MAX), Some(5));
    assert_eq!(parse_unsigned(&cs("18446744073709551616"), u64::MAX), None);
    assert_eq!(parse_unsigned(&cs(""), u64::MAX), None);
    assert_eq!(parse_unsigned(&cs("1a"), u64::MAX), None);
    assert_eq!(parse_signed_in_range(&cs("255"), 255), Some(255));
    assert_eq!(parse_signed_in_range(&cs("256"), 255), None);
    assert_eq!(parse_signed_in_range(&cs("-1"), 255), None);
    assert_eq!(parse_signed_in_range(&cs("-0"), 255), Some(0));
    for n in [0u64, 7, 10, 99, 12345] {
        assert_eq!(parse_unsigned(&cs(&u64_to_string(n)), u64::MAX), Some(n));
    }
}

#[test]
fn joining_and_searching() {
    let v = vec!["a".to_string(), "".to_string(), "c".to_string()];
    assert_eq!(join_strings(&v, " "), "a  c");
    assert_eq!(join_strings(&vec![], ","), "");
    assert_eq!(chars_of("héllo"), cs("héllo"));
    assert!(text_contains(&cs("0001000"), &cs("1000")));
    assert!(!text_contains(&cs("0001"), &cs("1000")));
    assert!(text_contains(&cs("abc"), &cs("")));
}

#[test]
fn real_number_texts() {
    for s in ["0", "1.5", "-2.", ".5", "+3e10", "1E-3", "inf", "-Infinity", "NaN", "30.0"] {
        assert!(real_text_ok(&cs(s)), "{}", s);
        assert!(s.parse::<f64>().is_ok(), "{}", s);
    }
    for s in ["", ".", "+", "1e", "1e+", "1.2.3", "abc", "1,5", "--1", "infinit", " 1"] {
        assert!(!real_text_ok(&cs(s)), "{}", s);
        assert!(s.parse::<f64>().is_err(), "{}", s);
    }
}

#[test]
fn file_stems() {
    assert_eq!(stem("get"), Some("get".to_string()));
    assert_eq!(stem("/usr/bin/get.sh"), Some("get".to_string()));
    assert_eq!(stem("a/b/"), Some("b".to_string()));
    assert_eq!(stem("a/."), Some("a".to_string()));
    assert_eq!(stem(".bashrc"), Some(".bashrc".to_string()));
    assert_eq!(stem("archive.tar.gz"), Some("archive.tar".to_string()));
    assert_eq!(stem(""), None);
    assert_eq!(stem("/"), None);
    assert_eq!(stem("a/.."), None);
    for p in ["get", "/usr/bin/get.sh", "a/b/", "a/.", ".bashrc", "x.tar.gz", "", "/", "a/..", "..."] {
        let std_stem = std::path::Path::new(p).file_stem().map(|s| s.to_str().unwrap().to_string());
        assert_eq!(stem(p), std_stem, "{}", p);
    }
}
