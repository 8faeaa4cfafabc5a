use kaspa_ng_core::network::Network;
use kaspa_ng_core::utils::rothschild::{
    address_of_public_key, credentials_of, generate_rothschild_credentials, network_prefix,
    private_key_bytes, private_key_text, rothschild_address_from_private_key,
    rothschild_mnemonic_from_private_key, AddressPrefix, KeyError, KEY_LEN,
};
use kaspa_ng_core::utils::{decode_hex, encode_hex, nibble_of, HexError};

const KEY_ONE: &str = "0000000000000000000000000000000000000000000000000000000000000001";
const GENERATOR_X: &str = "79be667ef9dcbbac55a06295ce870b07029bfcdb2dce28d959f2815b16f81798";

fn chars(s: &str) -> Vec<char> {
    s.chars().collect()
}

fn text(v: &[char]) -> String {
    v.iter().collect()
}

#[test]
fn hex_digits_have_their_values() {
    assert_eq!(nibble_of('0'), Some(0));
    assert_eq!(nibble_of('9'), Some(9));
    assert_eq!(nibble_of('a'), Some(10));
    assert_eq!(nibble_of('f'), Some(15));
    assert_eq!(nibble_of('A'), Some(10));
    assert_eq!(nibble_of('F'), Some(15));
    assert_eq!(nibble_of('g'), None);
    assert_eq!(nibble_of('G'), None);
    assert_eq!(nibble_of('/'), None);
    assert_eq!(nibble_of(':'), None);
    assert_eq!(nibble_of('@'), None);
    assert_eq!(nibble_of('`'), None);
    assert_eq!(nibble_of(' '), None);
}

#[test]
fn empty_hex_is_no_bytes() {
    assert_eq!(decode_hex(&chars("")), Ok(vec![]));
    assert_eq!(text(&encode_hex(&vec![])), "");
}

#[test]
fn hex_decodes_in_either_case() {
    assert_eq!(decode_hex(&chars("0aff")), Ok(vec![0x0a, 0xff]));
    assert_eq!(decode_hex(&chars("0AFF")), Ok(vec![0x0a, 0xff]));
    assert_eq!(decode_hex(&chars("0aFf10")), Ok(vec![0x0a, 0xff, 0x10]));
    assert_eq!(decode_hex(&chars("00")), Ok(vec![0]));
}

#[test]
fn hex_of_odd_length_is_refused() {
    assert_eq!(decode_hex(&chars("a")), Err(HexError::OddLength(0)));
    assert_eq!(decode_hex(&chars("abc")), Err(HexError::OddLength(2)));
    // The length is tested before the digits.
    assert_eq!(decode_hex(&chars("xyz")), Err(HexError::OddLength(2)));
}

#[test]
fn hex_with_a_bad_digit_is_refused() {
    assert_eq!(decode_hex(&chars("zz")), Err(HexError::BadDigit));
    assert_eq!(decode_hex(&chars("0g")), Err(HexError::BadDigit));
    assert_eq!(decode_hex(&chars("0 ")), Err(HexError::BadDigit));
    assert_eq!(decode_hex(&chars("0x10")), Err(HexError::BadDigit));
}

#[test]
fn hex_length_counts_bytes_not_characters() {
    // One character of two bytes: an even length, and no digit.
    assert_eq!(decode_hex(&chars("\u{e9}")), Err(HexError::BadDigit));
    // Two characters, three bytes.
    assert_eq!(decode_hex(&chars("a\u{e9}")), Err(HexError::OddLength(2)));
    // One character of three bytes.
    assert_eq!(decode_hex(&chars("\u{20ac}")), Err(HexError::OddLength(2)));
    // One character of four bytes.
    assert_eq!(decode_hex(&chars("\u{1f600}")), Err(HexError::BadDigit));
    // Three bytes and one: four.
    assert_eq!(decode_hex(&chars("\u{20ac}a")), Err(HexError::BadDigit));
}

#[test]
fn hex_encodes_in_lower_case() {
    assert_eq!(text(&encode_hex(&vec![0x00, 0xab, 0xff, 0x09, 0x10])), "00abff0910");
}

#[test]
fn hex_round_trip() {
    let bytes: Vec<u8> = (0..=255).collect();
    let encoded = encode_hex(&bytes);
    assert_eq!(encoded.len(), 512);
    assert_eq!(decode_hex(&encoded), Ok(bytes));
}

#[test]
fn private_key_is_read_without_surrounding_space() {
    assert_eq!(private_key_bytes("  0001 \n"), Ok(vec![0, 1]));
    assert_eq!(private_key_bytes("\tFF"), Ok(vec![255]));
    assert_eq!(private_key_bytes(""), Ok(vec![]));
    assert_eq!(private_key_bytes("   "), Ok(vec![]));
    assert_eq!(private_key_bytes("00 1"), Err(KeyError::Hex(HexError::BadDigit)));
    assert_eq!(private_key_bytes("00 01"), Err(KeyError::Hex(HexError::OddLength(4))));
    assert_eq!(private_key_bytes(" 000 "), Err(KeyError::Hex(HexError::OddLength(2))));
}

#[test]
fn private_key_is_written_in_lower_case() {
    assert_eq!(private_key_text(&vec![0xde, 0xad, 0xBE, 0xEF]), "deadbeef");
    let mut one = vec![0u8; 32];
    one[31] = 1;
    assert_eq!(private_key_text(&one), KEY_ONE);
}

#[test]
fn test_networks_share_one_prefix() {
    assert_eq!(network_prefix(Network::Mainnet), AddressPrefix::Mainnet);
    assert_eq!(network_prefix(Network::Testnet10), AddressPrefix::Testnet);
    assert_eq!(network_prefix(Network::Testnet12), AddressPrefix::Testnet);
}

#[test]
fn address_of_key_one_holds_the_generator() {
    let address = rothschild_address_from_private_key(Network::Mainnet, KEY_ONE).unwrap();
    assert!(address.starts_with("kaspa:"));
    assert_eq!(address.len(), "kaspa:".len() + 61);
    let parsed = kaspa_addresses::Address::try_from(address.as_str()).unwrap();
    assert_eq!(parsed.prefix, kaspa_addresses::Prefix::Mainnet);
    assert_eq!(parsed.version, kaspa_addresses::Version::PubKey);
    let expected = decode_hex(&chars(GENERATOR_X)).unwrap();
    assert_eq!(parsed.payload.as_slice(), expected.as_slice());
}

#[test]
fn address_depends_on_the_network_kind() {
    let main = rothschild_address_from_private_key(Network::Mainnet, KEY_ONE).unwrap();
    let ten = rothschild_address_from_private_key(Network::Testnet10, KEY_ONE).unwrap();
    let twelve = rothschild_address_from_private_key(Network::Testnet12, KEY_ONE).unwrap();
    assert!(ten.starts_with("kaspatest:"));
    assert_eq!(ten, twelve);
    assert_ne!(main, ten);
    let parsed = kaspa_addresses::Address::try_from(ten.as_str()).unwrap();
    assert_eq!(parsed.prefix, kaspa_addresses::Prefix::Testnet);
}

#[test]
fn address_ignores_case_and_padding_of_the_key() {
    let key = "00000000000000000000000000000000000000000000000000000000000000ab";
    let plain = rothschild_address_from_private_key(Network::Mainnet, key).unwrap();
    let upper = rothschild_address_from_private_key(Network::Mainnet, &key.to_uppercase()).unwrap();
    let padded =
        rothschild_address_from_private_key(Network::Mainnet, &format!("  {key}\n")).unwrap();
    assert_eq!(plain, upper);
    assert_eq!(plain, padded);
}

#[test]
fn address_of_a_public_key_is_read_back() {
    let key = decode_hex(&chars(GENERATOR_X)).unwrap();
    assert_eq!(key.len(), KEY_LEN);
    let address = address_of_public_key(Network::Testnet10, &key);
    let parsed = kaspa_addresses::Address::try_from(address.as_str()).unwrap();
    assert_eq!(parsed.payload.as_slice(), key.as_slice());
    assert_eq!(
        address,
        rothschild_address_from_private_key(Network::Testnet10, KEY_ONE).unwrap()
    );
}

#[test]
fn credentials_pair_the_key_text_with_the_address() {
    let mut secret = vec![0u8; 32];
    secret[31] = 1;
    let key = decode_hex(&chars(GENERATOR_X)).unwrap();
    let (private_key, address) = credentials_of(Network::Mainnet, &secret, &key);
    assert_eq!(private_key, KEY_ONE);
    assert_eq!(
        address,
        rothschild_address_from_private_key(Network::Mainnet, KEY_ONE).unwrap()
    );
}

#[test]
fn address_is_refused_for_what_is_no_key() {
    assert_eq!(
        rothschild_address_from_private_key(Network::Mainnet, "abc"),
        Err(KeyError::Hex(HexError::OddLength(2)))
    );
    assert_eq!(
        rothschild_address_from_private_key(Network::Mainnet, "not a key!"),
        Err(KeyError::Hex(HexError::BadDigit))
    );
    // Thirty-one bytes.
    assert_eq!(
        rothschild_address_from_private_key(Network::Mainnet, &KEY_ONE[2..]),
        Err(KeyError::InvalidSecretKey)
    );
    // Zero is no private key.
    assert_eq!(
        rothschild_address_from_private_key(Network::Mainnet, &"00".repeat(32)),
        Err(KeyError::InvalidSecretKey)
    );
    // Nor is a number beyond the order of the curve.
    assert_eq!(
        rothschild_address_from_private_key(Network::Mainnet, &"ff".repeat(32)),
        Err(KeyError::InvalidSecretKey)
    );
    assert_eq!(
        rothschild_address_from_private_key(Network::Mainnet, ""),
        Err(KeyError::InvalidSecretKey)
    );
}

#[test]
fn mnemonic_of_zero_entropy() {
    let phrase = rothschild_mnemonic_from_private_key(&"00".repeat(32)).unwrap();
    let mut expected = vec!["abandon"; 23];
    expected.push("art");
    assert_eq!(phrase, expected.join(" "));
}

#[test]
fn mnemonic_of_full_entropy() {
    let phrase = rothschild_mnemonic_from_private_key(&"ff".repeat(32)).unwrap();
    let mut expected = vec!["zoo"; 23];
    expected.push("vote");
    assert_eq!(phrase, expected.join(" "));
}

#[test]
fn mnemonic_wants_thirty_two_bytes() {
    assert_eq!(
        rothschild_mnemonic_from_private_key(&"00".repeat(16)),
        Err(KeyError::NotThirtyTwoBytes)
    );
    assert_eq!(
        rothschild_mnemonic_from_private_key(&"00".repeat(33)),
        Err(KeyError::NotThirtyTwoBytes)
    );
    assert_eq!(rothschild_mnemonic_from_private_key(""), Err(KeyError::NotThirtyTwoBytes));
    assert_eq!(
        rothschild_mnemonic_from_private_key("0"),
        Err(KeyError::Hex(HexError::OddLength(0)))
    );
    assert_eq!(
        rothschild_mnemonic_from_private_key("zz"),
        Err(KeyError::Hex(HexError::BadDigit))
    );
}

#[test]
fn mnemonic_ignores_padding_of_the_key() {
    let plain = rothschild_mnemonic_from_private_key(KEY_ONE).unwrap();
    let padded = rothschild_mnemonic_from_private_key(&format!(" {KEY_ONE} ")).unwrap();
    assert_eq!(plain, padded);
    assert_eq!(plain.split(' ').count(), 24);
}

#[test]
fn generated_credentials_belong_together() {
    for network in [Network::Mainnet, Network::Testnet10, Network::Testnet12] {
        let (private_key, address) = generate_rothschild_credentials(network);
        assert_eq!(private_key.len(), 64);
        assert!(private_key.chars().all(|c| c.is_ascii_digit() || ('a'..='f').contains(&c)));
        assert_eq!(private_key_bytes(&private_key).unwrap().len(), 32);
        assert_eq!(
            rothschild_address_from_private_key(network, &private_key),
            Ok(address.clone())
        );
        let lead = if network == Network::Mainnet { "kaspa:" } else { "kaspatest:" };
        assert!(address.starts_with(lead));
        let phrase = rothschild_mnemonic_from_private_key(&private_key).unwrap();
        assert_eq!(phrase.split(' ').count(), 24);
    }
}

#[test]
fn generated_keys_differ() {
    let (first, _) = generate_rothschild_credentials(Network::Mainnet);
    let (second, _) = generate_rothschild_credentials(Network::Mainnet);
    assert_ne!(first, second);
}

#[test]
fn key_errors_in_words() {
    assert_eq!(KeyError::Hex(HexError::OddLength(2)).message(), "Invalid input length 2");
    assert_eq!(KeyError::Hex(HexError::OddLength(0)).message(), "Invalid input length 0");
    assert_eq!(KeyError::Hex(HexError::BadDigit).message(), "Invalid character");
    assert_eq!(KeyError::InvalidSecretKey.message(), "malformed or out-of-range secret key");
    assert_eq!(
        KeyError::NotThirtyTwoBytes.message(),
        "Private key must be 32 bytes to derive a mnemonic"
    );
}
