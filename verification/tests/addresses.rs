use compound_monitor::address::Address;

const MARKET: &str = "0xc3d688B66703497DAA19211EEdff47f25384cdc3";

fn market_bytes() -> [u8; 20] {
    [
        0xc3, 0xd6, 0x88, 0xb6, 0x67, 0x03, 0x49, 0x7d, 0xaa, 0x19, 0x21, 0x1e, 0xed, 0xff, 0x47,
        0xf2, 0x53, 0x84, 0xcd, 0xc3,
    ]
}

#[test]
fn addresses_are_read_from_hexadecimal() {
    assert_eq!(Address::parse(MARKET), Some(Address { bytes: market_bytes() }));
    assert_eq!(
        Address::parse("c3d688b66703497daa19211eedff47f25384cdc3"),
        Some(Address { bytes: market_bytes() })
    );
    assert_eq!(
        Address::parse("0x0000000000000000000000000000000000000000"),
        Some(Address { bytes: [0; 20] })
    );
    assert_eq!(
        Address::parse("0xFFfFfFffFFfffFFfFFfFFFFFffFFFffffFfFFFfF"),
        Some(Address { bytes: [0xff; 20] })
    );
}

#[test]
fn blanks_between_digits_are_passed_over() {
    assert_eq!(
        Address::parse("0xc3d688b66703497daa19 211eedff47f25384cdc3\n"),
        Some(Address { bytes: market_bytes() })
    );
    assert_eq!(
        Address::parse("c3d688b6\t6703497d\raa19211eedff47f25384cdc3"),
        Some(Address { bytes: market_bytes() })
    );
    // Also between the two digits of one byte, and after the last.
    assert_eq!(
        Address::parse("0xc 3d688b66703497daa19211eedff47f25384cdc  3 \t"),
        Some(Address { bytes: market_bytes() })
    );
    assert_eq!(Address::parse("0x c3d688b66703497daa19211eedff47f25384cdc3"), Some(Address { bytes: market_bytes() }));
}

#[test]
fn malformed_addresses_are_refused() {
    assert_eq!(Address::parse(""), None);
    assert_eq!(Address::parse("0x"), None);
    assert_eq!(Address::parse("not an address"), None);
    // One digit short, one digit long, one byte long.
    assert_eq!(Address::parse("0xc3d688b66703497daa19211eedff47f25384cdc"), None);
    assert_eq!(Address::parse("0xc3d688b66703497daa19211eedff47f25384cdc3a"), None);
    assert_eq!(Address::parse("0xc3d688b66703497daa19211eedff47f25384cdc3ab"), None);
    // A letter that is no digit, at the start and after the end.
    assert_eq!(Address::parse("0xg3d688b66703497daa19211eedff47f25384cdc3"), None);
    assert_eq!(Address::parse("0xc3d688b66703497daa19211eedff47f25384cdc3z"), None);
    // Only a lower-case prefix is taken off, and only once, at the very start.
    assert_eq!(Address::parse("0Xc3d688b66703497daa19211eedff47f25384cdc3"), None);
    assert_eq!(Address::parse("0x0xc3d688b66703497daa19211eedff47f25384cdc3"), None);
    assert_eq!(Address::parse(" 0xc3d688b66703497daa19211eedff47f25384cdc3"), None);
}

#[test]
fn a_signer_has_the_address_of_its_key() {
    let one = "0000000000000000000000000000000000000000000000000000000000000001";
    let expected = Address::parse("0x7E5F4552091A69125d5DfCb7b8C2659029395Bdf").unwrap();
    assert_eq!(Address::of_signer(one), Some(expected));
    let two = "0000000000000000000000000000000000000000000000000000000000000002";
    let expected = Address::parse("0x2B5AD5c4795c026514f8317c7a215E218DcCD6cF").unwrap();
    assert_eq!(Address::of_signer(two), Some(expected));
}

#[test]
fn what_is_no_key_has_no_signer() {
    assert_eq!(Address::of_signer(""), None);
    assert_eq!(Address::of_signer("hello"), None);
    assert_eq!(Address::of_signer("01"), None);
    // Zero is no private key.
    assert_eq!(
        Address::of_signer("0000000000000000000000000000000000000000000000000000000000000000"),
        None
    );
}
