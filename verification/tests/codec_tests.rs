use mx100qp::codec::LineCodec;

#[test]
fn encode_appends_newline() {
    let codec = LineCodec::new();
    let mut wire: Vec<u8> = Vec::new();
    codec.encode(b"OP1 1", &mut wire);
    assert_eq!(wire, b"OP1 1\n".to_vec());
    codec.encode(b"*IDN?", &mut wire);
    assert_eq!(wire, b"OP1 1\n*IDN?\n".to_vec());
}

#[test]
fn line_round_trip() {
    let tx = LineCodec::new();
    let mut wire: Vec<u8> = Vec::new();
    tx.encode(b"  V1 2.500 ", &mut wire);

    let mut rx = LineCodec::new();
    rx.push_bytes(&wire);
    let line = rx.decode().unwrap().unwrap();
    assert_eq!(line, b"V1 2.500".to_vec());
    assert_eq!(rx.buf.len(), 0);
    assert!(matches!(rx.decode(), Ok(None)));
}

#[test]
fn decode_waits_for_newline() {
    let mut rx = LineCodec::new();
    rx.push_bytes(b"V1");
    assert!(matches!(rx.decode(), Ok(None)));
    assert_eq!(rx.buf, b"V1".to_vec());
    rx.push_bytes(b" 2.0\nX");
    let line = rx.decode().unwrap().unwrap();
    assert_eq!(line, b"V1 2.0".to_vec());
    assert_eq!(rx.buf, b"X".to_vec());
}

#[test]
fn decode_trims_whitespace() {
    let mut rx = LineCodec::new();
    rx.push_bytes(b"\t 1 \r\n");
    let line = rx.decode().unwrap().unwrap();
    assert_eq!(line, b"1".to_vec());
}

#[test]
fn decode_rejects_non_ascii() {
    let mut rx = LineCodec::new();
    rx.push_bytes(&[0xFF, 0xFE, b'\n', b'O', b'K', b'\n']);
    assert!(rx.decode().is_err());
    // the malformed line is consumed; the next one still decodes
    let line = rx.decode().unwrap().unwrap();
    assert_eq!(line, b"OK".to_vec());
}

#[test]
fn decode_empty_line() {
    let mut rx = LineCodec::new();
    rx.push_bytes(b"\n");
    let line = rx.decode().unwrap().unwrap();
    assert_eq!(line, Vec::<u8>::new());
    assert_eq!(rx.buf.len(), 0);
}
