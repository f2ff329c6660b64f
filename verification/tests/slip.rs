use h5_transport::transport::slip;
use h5_transport::Error;

#[test]
fn slip_encode_test() {
    let input: Vec<u8> = vec![0x01, 0xDB, 0x49, 0xC0, 0x15];
    let expected: Vec<u8> = vec![0xC0, 0x01, 0xDB, 0xDD, 0x49, 0xDB, 0xDC, 0x15, 0xC0];

    let encoded = slip::encode(&input);
    assert_eq!(encoded, expected);
}

#[test]
fn slip_decode_escapes_test() {
    let input: Vec<u8> = vec![0x01, 0xDB, 0xDD, 0x49, 0xDB, 0xDC, 0x15, 0xC0];
    let expected: Vec<u8> = vec![0x01, 0xDB, 0x49, 0xC0, 0x15];

    let result: Vec<u8> = slip::decode(&input).unwrap();

    assert_eq!(result, expected);
}

#[test]
fn slip_decode_no_escapes_test() {
    let input = vec![0x01, 0x49, 0x15, 0x02];
    let decoded = slip::decode(&input).unwrap();

    assert_eq!(input, decoded);
}

#[test]
fn slip_encode_empty_input() {
    assert_eq!(slip::encode(&[]), vec![0xC0, 0xC0]);
}

#[test]
fn slip_round_trip_every_byte_kind() {
    let input: Vec<u8> = vec![0x00, 0xC0, 0xDB, 0xDC, 0xDD, 0xFF, 0x42, 0xC0, 0xC0, 0xDB];
    let decoded = slip::decode(&slip::encode(&input)).unwrap();
    assert_eq!(decoded, input);
}

#[test]
fn slip_round_trip_empty() {
    let decoded = slip::decode(&slip::encode(&[])).unwrap();
    assert_eq!(decoded, Vec::<u8>::new());
}

#[test]
fn slip_decode_dangling_escape_fails() {
    let input: Vec<u8> = vec![0x01, 0x02, 0xDB];
    assert_eq!(slip::decode(&input), Err(Error::DecodingError));
}

#[test]
fn slip_decode_bad_escape_code_fails() {
    let input: Vec<u8> = vec![0x01, 0xDB, 0x42, 0x03];
    assert_eq!(slip::decode(&input), Err(Error::DecodingError));
}

#[test]
fn slip_decode_skips_sentinels() {
    // With or without the delimiters, the same bytes come out.
    let bare: Vec<u8> = vec![0x11, 0x22, 0x33];
    let framed: Vec<u8> = vec![0xC0, 0x11, 0x22, 0x33, 0xC0];
    assert_eq!(slip::decode(&bare).unwrap(), bare);
    assert_eq!(slip::decode(&framed).unwrap(), bare);
}
