use mx100qp::numbers::{parse_decimal, parse_milli, push_decimal, push_milli};

fn decimal(n: u64) -> Vec<u8> {
    let mut out = Vec::new();
    push_decimal(n, &mut out);
    out
}

fn milli(m: u32) -> Vec<u8> {
    let mut out = Vec::new();
    push_milli(m, &mut out);
    out
}

#[test]
fn decimal_formatting() {
    assert_eq!(decimal(0), b"0".to_vec());
    assert_eq!(decimal(7), b"7".to_vec());
    assert_eq!(decimal(250), b"250".to_vec());
    assert_eq!(decimal(18_446_744_073_709_551_615), b"18446744073709551615".to_vec());
}

#[test]
fn milli_formatting() {
    assert_eq!(milli(0), b"0.000".to_vec());
    assert_eq!(milli(999), b"0.999".to_vec());
    assert_eq!(milli(1_000), b"1.000".to_vec());
    assert_eq!(milli(12_345), b"12.345".to_vec());
    assert_eq!(milli(70_000), b"70.000".to_vec());
    assert_eq!(milli(4_294_967_295), b"4294967.295".to_vec());
}

fn parse_all(s: &[u8]) -> Option<u64> {
    parse_decimal(s, 0, s.len())
}

#[test]
fn decimal_parsing() {
    assert_eq!(parse_all(b"0"), Some(0));
    assert_eq!(parse_all(b"042"), Some(42));
    assert_eq!(parse_all(b"18446744073709551615"), Some(u64::MAX));
    assert_eq!(parse_all(b"18446744073709551616"), None);
    assert_eq!(parse_all(b""), None);
    assert_eq!(parse_all(b"4 2"), None);
    assert_eq!(parse_all(b"-1"), None);
}

fn parse_milli_all(s: &[u8]) -> Option<u32> {
    parse_milli(s, 0, s.len())
}

#[test]
fn milli_parsing() {
    assert_eq!(parse_milli_all(b"0"), Some(0));
    assert_eq!(parse_milli_all(b"35"), Some(35_000));
    assert_eq!(parse_milli_all(b"1.5"), Some(1_500));
    assert_eq!(parse_milli_all(b"2.05"), Some(2_050));
    assert_eq!(parse_milli_all(b"2.500"), Some(2_500));
    assert_eq!(parse_milli_all(b"0023"), Some(23_000));
    assert_eq!(parse_milli_all(b"4294967.295"), Some(u32::MAX));
}

#[test]
fn milli_parsing_rejects() {
    assert_eq!(parse_milli_all(b"4294967.296"), None);
    assert_eq!(parse_milli_all(b"4294968"), None);
    assert_eq!(parse_milli_all(b"1.2345"), None);
    assert_eq!(parse_milli_all(b"1."), None);
    assert_eq!(parse_milli_all(b".5"), None);
    assert_eq!(parse_milli_all(b"1..2"), None);
    assert_eq!(parse_milli_all(b""), None);
    assert_eq!(parse_milli_all(b"x.5"), None);
}

#[test]
fn milli_round_trip() {
    for m in [0u32, 1, 999, 1_000, 35_000, 70_000, 4_294_967_295] {
        assert_eq!(parse_milli_all(&milli(m)), Some(m));
    }
}
