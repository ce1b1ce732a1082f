use rpc_types::commit::{from_hex, to_hex, CommitHexError};

#[test]
fn to_hex_pads_to_eight_lowercase_digits() {
    assert_eq!(to_hex(&Some(123456)), "0001e240");
    assert_eq!(to_hex(&Some(0xdeadbeef)), "deadbeef");
    assert_eq!(to_hex(&Some(u32::MAX)), "ffffffff");
    assert_eq!(to_hex(&Some(0)), "00000000");
}

#[test]
fn to_hex_renders_missing_commit_as_zero() {
    assert_eq!(to_hex(&None), "00000000");
}

#[test]
fn from_hex_reads_first_eight_bytes() {
    assert_eq!(from_hex("0001e240"), Ok(Some(123456)));
    assert_eq!(from_hex("c375ce1f"), Ok(Some(0xc375ce1f)));
    assert_eq!(from_hex("DEADBEEF"), Ok(Some(0xdeadbeef)));
    assert_eq!(from_hex("0001e240 trailing text"), Ok(Some(123456)));
    assert_eq!(from_hex("ffffffff"), Ok(Some(u32::MAX)));
}

#[test]
fn from_hex_accepts_leading_plus() {
    assert_eq!(from_hex("+001e240"), Ok(Some(0x1e240)));
}

#[test]
fn from_hex_refuses_non_hex() {
    assert_eq!(from_hex("0001e24g"), Err(CommitHexError::InvalidHex));
    assert_eq!(from_hex("-001e240"), Err(CommitHexError::InvalidHex));
    assert_eq!(from_hex(" 001e240"), Err(CommitHexError::InvalidHex));
    assert_eq!(from_hex("++01e240"), Err(CommitHexError::InvalidHex));
    assert_eq!(from_hex("0001e2é"), Err(CommitHexError::InvalidHex));
}

#[test]
fn commit_round_trips_through_text() {
    for v in [0u32, 1, 15, 16, 123456, 0x7fff_ffff, 0x8000_0000, u32::MAX] {
        let text = to_hex(&Some(v));
        assert_eq!(from_hex(&text), Ok(Some(v)));
    }
    let text = to_hex(&None);
    assert_eq!(from_hex(&text), Ok(Some(0)));
}
