use fbppid_rs::text::push_decimal;
use fbppid_rs::{
    parse_status_ppid, ppid_from_status, status_path, FallbackErrorKind, IntErrorKind,
    StatusParseError,
};

fn std_kind(text: &str) -> Result<i32, IntErrorKind> {
    text.parse::<i32>().map_err(|e| match e.kind() {
        std::num::IntErrorKind::Empty => IntErrorKind::Empty,
        std::num::IntErrorKind::InvalidDigit => IntErrorKind::InvalidDigit,
        std::num::IntErrorKind::PosOverflow => IntErrorKind::PosOverflow,
        std::num::IntErrorKind::NegOverflow => IntErrorKind::NegOverflow,
        other => panic!("unexpected kind {:?}", other),
    })
}

/// Reads the field with std: `lines()`, `strip_prefix("PPid:")`, `trim()`, `parse()`.
fn reference(content: &str) -> Result<i32, StatusParseError> {
    for line in content.lines() {
        if let Some(rest) = line.strip_prefix("PPid:") {
            return std_kind(rest.trim()).map_err(StatusParseError::InvalidPpid);
        }
    }
    Err(StatusParseError::FieldNotFound)
}

const SAMPLE: &str = "Name:\tbash\nUmask:\t0022\nState:\tS (sleeping)\nTgid:\t4242\nNgid:\t0\nPid:\t4242\nPPid:\t4100\nTracerPid:\t0\nUid:\t1000\t1000\t1000\t1000\n";

#[test]
fn reads_ppid_from_status() {
    assert_eq!(parse_status_ppid(SAMPLE), Ok(4100));
}

#[test]
fn first_ppid_line_wins() {
    assert_eq!(parse_status_ppid("PPid:\t1\nPPid:\t2\n"), Ok(1));
    assert_eq!(parse_status_ppid("Name: x\nPPid: 0\n"), Ok(0));
}

#[test]
fn missing_field() {
    assert_eq!(parse_status_ppid(""), Err(StatusParseError::FieldNotFound));
    assert_eq!(
        parse_status_ppid("Name:\tbash\nPid:\t1\n"),
        Err(StatusParseError::FieldNotFound)
    );
    assert_eq!(parse_status_ppid(" PPid:\t1\n"), Err(StatusParseError::FieldNotFound));
    assert_eq!(parse_status_ppid("ppid:\t1\n"), Err(StatusParseError::FieldNotFound));
    assert_eq!(parse_status_ppid("PPid\t1\n"), Err(StatusParseError::FieldNotFound));
}

#[test]
fn invalid_values() {
    assert_eq!(
        parse_status_ppid("PPid:\n"),
        Err(StatusParseError::InvalidPpid(IntErrorKind::Empty))
    );
    assert_eq!(
        parse_status_ppid("PPid:\tabc\n"),
        Err(StatusParseError::InvalidPpid(IntErrorKind::InvalidDigit))
    );
    assert_eq!(
        parse_status_ppid("PPid:\t-\n"),
        Err(StatusParseError::InvalidPpid(IntErrorKind::InvalidDigit))
    );
    assert_eq!(
        parse_status_ppid("PPid:\t2147483648\n"),
        Err(StatusParseError::InvalidPpid(IntErrorKind::PosOverflow))
    );
    assert_eq!(
        parse_status_ppid("PPid:\t-2147483649\n"),
        Err(StatusParseError::InvalidPpid(IntErrorKind::NegOverflow))
    );
    assert_eq!(
        parse_status_ppid("PPid:\t1 2\n"),
        Err(StatusParseError::InvalidPpid(IntErrorKind::InvalidDigit))
    );
}

#[test]
fn signs_and_whitespace() {
    assert_eq!(parse_status_ppid("PPid:+17"), Ok(17));
    assert_eq!(parse_status_ppid("PPid:-17\r\n"), Ok(-17));
    assert_eq!(parse_status_ppid("PPid: \u{a0}\u{3000}42\u{2029}\n"), Ok(42));
    assert_eq!(parse_status_ppid("PPid:\t2147483647\n"), Ok(i32::MAX));
    assert_eq!(parse_status_ppid("PPid:\t-2147483648\n"), Ok(i32::MIN));
    assert_eq!(parse_status_ppid("PPid:\t000123\n"), Ok(123));
}

#[test]
fn agrees_with_std_reading() {
    let values = [
        "", "0", "7", "+", "-", "+0", "-0", "12a", "a12", " 5 ", "\t\t9\r", "99999999999x",
        "2147483647", "2147483648", "-2147483648", "-2147483649", "1_000", "١٢", "5\u{85}",
        "\u{200b}5", "++1", "+-1", "0x10", "4294967296", "-99999999999999999999",
    ];
    for v in values {
        let content = format!("Name:\tt\nPPid:{}\nPid:\t3\n", v);
        assert_eq!(parse_status_ppid(&content), reference(&content), "value {:?}", v);
        let content = format!("PPid:{}", v);
        assert_eq!(parse_status_ppid(&content), reference(&content), "value {:?}", v);
    }
}

#[test]
fn written_ppid_reads_back() {
    for v in [0, 1, -1, 9, 10, 4100, i32::MAX, i32::MIN, -1000000] {
        let content = format!("PPid:\t{}\n", v);
        assert_eq!(parse_status_ppid(&content), Ok(v));
    }
}

#[test]
fn status_paths() {
    assert_eq!(status_path(1).unwrap(), "/proc/1/status");
    assert_eq!(status_path(4242).unwrap(), "/proc/4242/status");
    assert_eq!(status_path(i32::MAX).unwrap(), format!("/proc/{}/status", i32::MAX));
    let failure = status_path(0).unwrap_err();
    assert_eq!(failure.kind, FallbackErrorKind::InvalidInput);
    assert_eq!(failure.message, "invalid pid: 0");
    let failure = status_path(-5).unwrap_err();
    assert_eq!(failure.kind, FallbackErrorKind::InvalidInput);
    assert_eq!(failure.message, "invalid pid: -5");
}

#[test]
fn fallback_answers_and_messages() {
    let path = "/proc/42/status";
    assert_eq!(ppid_from_status(42, path, SAMPLE).unwrap(), 4100);
    let failure = ppid_from_status(42, path, "Name:\tx\n").unwrap_err();
    assert_eq!(failure.kind, FallbackErrorKind::InvalidData);
    assert_eq!(failure.message, "PPid field not found for pid 42 in /proc/42/status");
    let failure = ppid_from_status(42, path, "PPid:\tx1\nPPid:\t7\n").unwrap_err();
    assert_eq!(failure.kind, FallbackErrorKind::InvalidData);
    let e = "x1".parse::<i32>().unwrap_err();
    assert_eq!(
        failure.message,
        format!("failed to parse PPid for pid 42 from /proc/42/status: {}", e)
    );
}

#[test]
fn decimal_matches_format() {
    for v in [0, 5, 10, 99, 100, 12345, -1, -10, i32::MAX, i32::MIN, 2147483640] {
        let mut s = String::from("x");
        push_decimal(&mut s, v);
        assert_eq!(s, format!("x{}", v));
    }
}

#[test]
fn error_descriptions_match_std() {
    assert_eq!(
        IntErrorKind::Empty.description(),
        "".parse::<i32>().unwrap_err().to_string()
    );
    assert_eq!(
        IntErrorKind::InvalidDigit.description(),
        "x".parse::<i32>().unwrap_err().to_string()
    );
    assert_eq!(
        IntErrorKind::PosOverflow.description(),
        "9999999999".parse::<i32>().unwrap_err().to_string()
    );
    assert_eq!(
        IntErrorKind::NegOverflow.description(),
        "-9999999999".parse::<i32>().unwrap_err().to_string()
    );
}
