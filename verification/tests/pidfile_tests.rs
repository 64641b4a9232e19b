use dbmgr::pidfile::parse_pid;

fn bytes(s: &str) -> Vec<u8> {
    s.as_bytes().to_vec()
}

#[test]
fn reads_first_line_as_pid() {
    // A real pid-style file holds the pid on the first line and more
    // bookkeeping below.
    assert_eq!(parse_pid(&bytes("1234\n/var/data\n5432\n")), Some(1234));
}

#[test]
fn tolerates_surrounding_whitespace() {
    assert_eq!(parse_pid(&bytes("  1234 \n")), Some(1234));
    assert_eq!(parse_pid(&bytes("\t77\t\n")), Some(77));
}

#[test]
fn tolerates_missing_newline_and_carriage_return() {
    assert_eq!(parse_pid(&bytes("1234")), Some(1234));
    assert_eq!(parse_pid(&bytes("99\r\n")), Some(99));
}

#[test]
fn accepts_a_leading_plus_sign_only() {
    assert_eq!(parse_pid(&bytes("+7\n")), Some(7));
    assert_eq!(parse_pid(&bytes("-7\n")), None);
    assert_eq!(parse_pid(&bytes("+\n")), None);
}

#[test]
fn rejects_empty_and_non_numeric_content() {
    assert_eq!(parse_pid(&bytes("")), None);
    assert_eq!(parse_pid(&bytes("\n")), None);
    assert_eq!(parse_pid(&bytes("   \n")), None);
    assert_eq!(parse_pid(&bytes("abc\n")), None);
    assert_eq!(parse_pid(&bytes("12x\n")), None);
    assert_eq!(parse_pid(&bytes("1 2\n")), None);
}

#[test]
fn respects_the_value_limit() {
    assert_eq!(parse_pid(&bytes("4294967295\n")), Some(4294967295));
    assert_eq!(parse_pid(&bytes("4294967296\n")), None);
    assert_eq!(parse_pid(&bytes("99999999999999999999\n")), None);
}

#[test]
fn leading_zeroes_are_fine() {
    assert_eq!(parse_pid(&bytes("007\n")), Some(7));
}
