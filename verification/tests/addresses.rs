use sugarfunge_integration::address::{parse_address, ChainAddress, TxHash, ValueWord};
use sugarfunge_integration::config::{infura_url, Config};
use sugarfunge_integration::error::ApiError;

#[test]
fn parse_accepts_prefixed_and_bare_hex() {
    let a = parse_address("0x00112233445566778899aabbccddeeff00112233").expect("valid");
    assert_eq!(
        a.bytes(),
        &vec![
            0x00, 0x11, 0x22, 0x33, 0x44, 0x55, 0x66, 0x77, 0x88, 0x99, 0xaa, 0xbb, 0xcc, 0xdd,
            0xee, 0xff, 0x00, 0x11, 0x22, 0x33
        ]
    );
    let b = parse_address("00112233445566778899aabbccddeeff00112233").expect("valid");
    assert_eq!(a, b);
}

#[test]
fn parse_accepts_mixed_case() {
    let a = parse_address("0xAbCdEf0123456789abcdef0123456789ABCDEF01").expect("valid");
    assert_eq!(a.bytes()[0], 0xab);
    assert_eq!(a.bytes()[19], 0x01);
}

#[test]
fn parse_rejects_wrong_length_and_bad_digits() {
    for bad in [
        "",
        "0x",
        "0x1234",
        "0x00112233445566778899aabbccddeeff0011223",    // 39 digits
        "0x00112233445566778899aabbccddeeff001122334",  // 41 digits
        "0x0011223344g566778899aabbccddeeff00112233",   // bad digit
        "0X00112233445566778899aabbccddeeff00112233",   // wrong marker case
    ] {
        match parse_address(bad) {
            Err(ApiError::InvalidRequest) => {}
            _ => panic!("expected InvalidRequest for {:?}", bad),
        }
    }
}

#[test]
fn address_round_trips_to_lowercase_hex() {
    let a = parse_address("0xAbCdEf0123456789abcdef0123456789ABCDEF01").expect("valid");
    assert_eq!(a.to_hex(), "0xabcdef0123456789abcdef0123456789abcdef01");
}

#[test]
fn chain_address_requires_twenty_bytes() {
    assert!(ChainAddress::new(vec![0; 20]).is_some());
    assert!(ChainAddress::new(vec![0; 19]).is_none());
    assert!(ChainAddress::new(vec![0; 21]).is_none());
}

#[test]
fn tx_hash_requires_thirty_two_bytes_and_prints_in_full() {
    assert!(TxHash::new(vec![0; 31]).is_none());
    let mut bytes = vec![0u8; 31];
    bytes.push(1);
    let h = TxHash::new(bytes).expect("32 bytes");
    assert_eq!(h.to_hex(), format!("0x{}01", "00".repeat(31)));
}

#[test]
fn value_words_print_in_shortest_hex() {
    let zero = ValueWord::new(vec![0; 32]).expect("32 bytes");
    assert_eq!(zero.to_short_hex(), "0x0");

    let mut bytes = vec![0u8; 31];
    bytes.push(0x2A);
    let small = ValueWord::new(bytes).expect("32 bytes");
    assert_eq!(small.to_short_hex(), "0x2a");

    let mut bytes = vec![0u8; 30];
    bytes.push(0x01);
    bytes.push(0x23);
    let odd = ValueWord::new(bytes).expect("32 bytes");
    assert_eq!(odd.to_short_hex(), "0x123");

    let full = ValueWord::new(vec![0xFF; 32]).expect("32 bytes");
    assert_eq!(full.to_short_hex(), format!("0x{}", "ff".repeat(32)));
}

#[test]
fn infura_url_appends_the_project_id() {
    let config = Config {
        listen_url: String::from("127.0.0.1:8080"),
        project_id: String::from("abc123"),
        signer_private_key: String::new(),
        signer_address: String::new(),
        chain_id: 3,
        moralis_base_url: String::from("https://api.example/v2/"),
        moralis_api_key: String::new(),
        testing_address: String::new(),
    };
    assert_eq!(infura_url(&config), "https://ropsten.infura.io/v3/abc123");
}
