use chainlink_feeds::address::Address;

#[test]
fn parse_accepts_a_canonical_address() {
    let a = Address::parse("0x72AFAECF99C9d9C8215fF44C77B94B99C28741e8").unwrap();
    assert_eq!(
        a.bytes,
        vec![
            0x72, 0xAF, 0xAE, 0xCF, 0x99, 0xC9, 0xD9, 0xC8, 0x21, 0x5F, 0xF4, 0x4C, 0x77, 0xB9,
            0x4B, 0x99, 0xC2, 0x87, 0x41, 0xE8
        ]
    );
}

#[test]
fn parse_accepts_any_digit_case() {
    let lower = Address::parse("0xabcdefabcdefabcdefabcdefabcdefabcdefabcd").unwrap();
    let upper = Address::parse("0xABCDEFABCDEFABCDEFABCDEFABCDEFABCDEFABCD").unwrap();
    assert_eq!(lower.bytes, upper.bytes);
}

#[test]
fn parse_rejects_wrong_length() {
    assert!(Address::parse("0x1234").is_none());
    assert!(Address::parse("0x72AFAECF99C9d9C8215fF44C77B94B99C28741e").is_none());
    assert!(Address::parse("0x72AFAECF99C9d9C8215fF44C77B94B99C28741e8a").is_none());
    assert!(Address::parse("").is_none());
}

#[test]
fn parse_rejects_a_missing_prefix() {
    assert!(Address::parse("72AFAECF99C9d9C8215fF44C77B94B99C28741e8ab").is_none());
    assert!(Address::parse("0X72AFAECF99C9d9C8215fF44C77B94B99C28741e8").is_none());
}

#[test]
fn parse_rejects_a_non_hexadecimal_digit() {
    assert!(Address::parse("0x72AFAECF99C9d9C8215fF44C77B94B99C28741g8").is_none());
    assert!(Address::parse("0x72AFAECF99C9d9C8215fF44C77B94B99C28741 8").is_none());
}
