//! Credentials of the transaction generator: a private key, the address
//! that belongs to it and the mnemonic phrase that spells it.
//!
//! The key arithmetic, the address encoding and the word list are those
//! of `secp256k1`, `kaspa-addresses` and `kaspa-bip32`. What is decided
//! here is how a private key is read from text, which inputs are turned
//! away, and what is handed to those crates.

use crate::network::Network;
use crate::text::{
    chars_of, concat, decimal, join, no_pieces, push_number, push_text, string_of, texts, trim,
    trim_chars,
};
use crate::utils::{
    decode_hex, decoded, encode_hex, hex_text, lemma_hex_round_trip, HexError,
};
use vstd::prelude::*;

verus! {

/// Number of bytes of a private key, and of the public key that an
/// address holds.
pub const KEY_LEN: usize = 32;

/// Why a text gives no credentials.
#[derive(Clone, Copy, Debug, PartialEq, Eq, Structural)]
pub enum KeyError {
    /// The text is not the hexadecimal form of any bytes.
    Hex(HexError),
    /// The bytes are no private key of the curve.
    InvalidSecretKey,
    /// A mnemonic phrase is derived from thirty-two bytes only.
    NotThirtyTwoBytes,
}

impl KeyError {
    /// The error in words. A text of odd length is told with the number
    /// of its bytes that stand in pairs.
    pub open spec fn text(self) -> Seq<char> {
        match self {
            KeyError::Hex(HexError::OddLength(len)) => concat(
                seq!["Invalid input length "@, decimal(len as nat)],
            ),
            KeyError::Hex(HexError::BadDigit) => concat(seq!["Invalid character"@]),
            KeyError::InvalidSecretKey => concat(seq!["malformed or out-of-range secret key"@]),
            KeyError::NotThirtyTwoBytes => concat(
                seq!["Private key must be 32 bytes to derive a mnemonic"@],
            ),
        }
    }

    pub fn message(&self) -> (r: String)
        ensures
            r@ == self.text(),
    {
        let mut p = no_pieces();
        match self {
            KeyError::Hex(HexError::OddLength(len)) => {
                push_text(&mut p, "Invalid input length ");
                push_number(&mut p, *len as u64);
                assert(texts(p@) =~= seq!["Invalid input length "@, decimal(*len as nat)]);
            },
            KeyError::Hex(HexError::BadDigit) => {
                push_text(&mut p, "Invalid character");
                assert(texts(p@) =~= seq!["Invalid character"@]);
            },
            KeyError::InvalidSecretKey => {
                push_text(&mut p, "malformed or out-of-range secret key");
                assert(texts(p@) =~= seq!["malformed or out-of-range secret key"@]);
            },
            KeyError::NotThirtyTwoBytes => {
                push_text(&mut p, "Private key must be 32 bytes to derive a mnemonic");
                assert(texts(p@) =~= seq!["Private key must be 32 bytes to derive a mnemonic"@]);
            },
        }
        join(&p)
    }
}

/// The kind of address that a network uses.
#[derive(Clone, Copy, Debug, PartialEq, Eq, Structural)]
pub enum AddressPrefix {
    Mainnet,
    Testnet,
}

/// The kind of address of `network`: every test network shares one.
pub open spec fn prefix_of(network: Network) -> AddressPrefix {
    if network.is_testnet() {
        AddressPrefix::Testnet
    } else {
        AddressPrefix::Mainnet
    }
}

pub fn network_prefix(network: Network) -> (p: AddressPrefix)
    ensures
        p == prefix_of(network),
{
    match network {
        Network::Mainnet => AddressPrefix::Mainnet,
        Network::Testnet10 => AddressPrefix::Testnet,
        Network::Testnet12 => AddressPrefix::Testnet,
    }
}

/// What every address of the kind begins with.
pub open spec fn address_lead(testnet: bool) -> Seq<char> {
    if testnet {
        "kaspatest:"@
    } else {
        "kaspa:"@
    }
}

// ---------------------------------------------------------------------------
// What the outside crates compute
// ---------------------------------------------------------------------------

/// The x-only public key of the private key `secret`, where `secret` is a
/// private key of the curve. The name stands for a chain of four calls
/// of `secp256k1`: `SecretKey::from_slice`, `PublicKey::from_secret_key`,
/// `x_only_public_key` and `serialize`. It is also said of the pair that
/// `generate_keypair` gives, which makes its public key with the same
/// `PublicKey::from_secret_key`.
pub uninterp spec fn public_key_of(secret: Seq<u8>) -> Option<Seq<u8>>;

/// The address, as text, of the public key `key` on the main network or
/// on the test networks. The address is of the kind that holds a
/// Schnorr public key (`Version::PubKey`), and of no other.
pub uninterp spec fn address_text(testnet: bool, key: Seq<u8>) -> Seq<char>;

/// The mnemonic phrase that spells `entropy`, in the English word list
/// (`Language::English`), and in no other.
pub uninterp spec fn mnemonic_phrase(entropy: Seq<u8>) -> Seq<char>;

/// The error of `secp256k1`, carried through as it is.
#[verifier::external_type_specification]
#[verifier::external_body]
pub struct ExCurveError(secp256k1::Error);

/// The error of `kaspa-bip32`, carried through as it is.
#[verifier::external_type_specification]
#[verifier::external_body]
pub struct ExPhraseError(kaspa_bip32::Error);

/// `secp256k1::SecretKey::from_slice`, then
/// `PublicKey::from_secret_key` and `x_only_public_key` on its result,
/// serialized. Believed: a key is returned only for thirty-two bytes, it
/// is thirty-two bytes long, and it depends on the bytes given alone;
/// the call fails exactly where those bytes are no private key.
#[verifier::external_body]
fn derive_public_key(secret: &Vec<u8>) -> (r: Result<Vec<u8>, secp256k1::Error>)
    ensures
        match r {
            Ok(key) => public_key_of(secret@) == Some(key@) && key@.len() == KEY_LEN
                && secret@.len() == KEY_LEN,
            Err(_) => public_key_of(secret@) is None,
        },
{
    let secret_key = secp256k1::SecretKey::from_slice(secret)?;
    let public_key = secp256k1::PublicKey::from_secret_key(secp256k1::SECP256K1, &secret_key);
    Ok(public_key.x_only_public_key().0.serialize().to_vec())
}

/// `secp256k1::generate_keypair` on the thread's random number
/// generator. Believed: both keys are thirty-two bytes long, and the
/// public key is the one that belongs to the private key. Which key comes
/// is not stated.
#[verifier::external_body]
fn fresh_keypair() -> (r: (Vec<u8>, Vec<u8>))
    ensures
        r.0@.len() == KEY_LEN,
        r.1@.len() == KEY_LEN,
        public_key_of(r.0@) == Some(r.1@),
{
    let (secret_key, public_key) = secp256k1::generate_keypair(&mut rand::thread_rng());
    (secret_key.secret_bytes().to_vec(), public_key.x_only_public_key().0.serialize().to_vec())
}

/// `kaspa_addresses::Address::new` for a public-key address, written out
/// with `to_string`. Believed: the text depends on the kind of address
/// and on the key alone, and begins with the name of the kind and a
/// colon. The call panics on a key of another length, which `requires`
/// leaves out.
#[verifier::external_body]
fn address_string(prefix: AddressPrefix, key: &Vec<u8>) -> (r: String)
    requires
        key@.len() == KEY_LEN,
    ensures
        r@ == address_text(prefix is Testnet, key@),
        r@.len() >= address_lead(prefix is Testnet).len(),
        r@.take(address_lead(prefix is Testnet).len() as int) == address_lead(prefix is Testnet),
{
    let prefix = match prefix {
        AddressPrefix::Mainnet => kaspa_addresses::Prefix::Mainnet,
        AddressPrefix::Testnet => kaspa_addresses::Prefix::Testnet,
    };
    kaspa_addresses::Address::new(prefix, kaspa_addresses::Version::PubKey, key).to_string()
}

/// `kaspa_bip32::Mnemonic::from_entropy` in English, then
/// `phrase_string`. Believed: the call succeeds exactly on sixteen and on
/// thirty-two bytes, and the phrase depends on the bytes alone.
#[verifier::external_body]
fn phrase_of_entropy(entropy: Vec<u8>) -> (r: Result<String, kaspa_bip32::Error>)
    ensures
        r is Ok <==> (entropy@.len() == 16 || entropy@.len() == 32),
        r matches Ok(p) ==> p@ == mnemonic_phrase(entropy@),
{
    let mnemonic = kaspa_bip32::Mnemonic::from_entropy(entropy, kaspa_bip32::Language::English)?;
    Ok(mnemonic.phrase_string())
}

// ---------------------------------------------------------------------------
// Reading a private key
// ---------------------------------------------------------------------------

/// The bytes that the text of a private key stands for: hexadecimal, in
/// either case, white space around it ignored.
pub open spec fn key_bytes(hex: Seq<char>) -> Result<Seq<u8>, KeyError> {
    match decoded(trim(hex)) {
        Ok(bytes) => Ok(bytes),
        Err(e) => Err(KeyError::Hex(e)),
    }
}

/// The address of the private key written in `hex`.
pub open spec fn address_of_key(network: Network, hex: Seq<char>) -> Result<Seq<char>, KeyError> {
    match key_bytes(hex) {
        Err(e) => Err(e),
        Ok(secret) => match public_key_of(secret) {
            None => Err(KeyError::InvalidSecretKey),
            Some(key) => Ok(address_text(network.is_testnet(), key)),
        },
    }
}

/// The mnemonic phrase of the private key written in `hex`.
pub open spec fn mnemonic_of_key(hex: Seq<char>) -> Result<Seq<char>, KeyError> {
    match key_bytes(hex) {
        Err(e) => Err(e),
        Ok(bytes) => if bytes.len() != KEY_LEN {
            Err(KeyError::NotThirtyTwoBytes)
        } else {
            Ok(mnemonic_phrase(bytes))
        },
    }
}

/// Reads a private key from text.
pub fn private_key_bytes(private_key_hex: &str) -> (r: Result<Vec<u8>, KeyError>)
    ensures
        match r {
            Ok(bytes) => key_bytes(private_key_hex@) == Ok::<Seq<u8>, KeyError>(bytes@),
            Err(e) => key_bytes(private_key_hex@) == Err::<Seq<u8>, KeyError>(e),
        },
{
    let all = chars_of(private_key_hex);
    let digits = trim_chars(&all);
    match decode_hex(&digits) {
        Ok(bytes) => Ok(bytes),
        Err(e) => Err(KeyError::Hex(e)),
    }
}

/// A private key as it is stored: lower-case hexadecimal.
pub fn private_key_text(secret: &Vec<u8>) -> (r: String)
    ensures
        r@ == hex_text(secret@),
{
    let digits = encode_hex(secret);
    string_of(&digits)
}

/// The address of a public key on `network`.
pub fn address_of_public_key(network: Network, key: &Vec<u8>) -> (r: String)
    requires
        key@.len() == KEY_LEN,
    ensures
        r@ == address_text(network.is_testnet(), key@),
        r@.len() >= address_lead(network.is_testnet()).len(),
        r@.take(address_lead(network.is_testnet()).len() as int) == address_lead(
            network.is_testnet(),
        ),
{
    address_string(network_prefix(network), key)
}

/// The credentials made of a key pair: the private key as text, and the
/// address of the public key on `network`.
pub fn credentials_of(network: Network, secret: &Vec<u8>, key: &Vec<u8>) -> (r: (String, String))
    requires
        key@.len() == KEY_LEN,
    ensures
        r.0@ == hex_text(secret@),
        r.1@ == address_text(network.is_testnet(), key@),
{
    (private_key_text(secret), address_of_public_key(network, key))
}

/// New credentials for `network`: a fresh private key as sixty-four
/// hexadecimal digits, and the address that belongs to it.
pub fn generate_rothschild_credentials(network: Network) -> (r: (String, String))
    ensures
        r.0@.len() == 2 * KEY_LEN,
        key_bytes(r.0@) is Ok,
        key_bytes(r.0@).unwrap().len() == KEY_LEN,
        address_of_key(network, r.0@) == Ok::<Seq<char>, KeyError>(r.1@),
{
    let (secret, key) = fresh_keypair();
    proof {
        lemma_hex_round_trip(secret@);
    }
    credentials_of(network, &secret, &key)
}

/// The address on `network` of the private key written in
/// `private_key_hex`.
pub fn rothschild_address_from_private_key(network: Network, private_key_hex: &str) -> (r: Result<
    String,
    KeyError,
>)
    ensures
        match r {
            Ok(address) => address_of_key(network, private_key_hex@) == Ok::<Seq<char>, KeyError>(
                address@,
            ),
            Err(e) => address_of_key(network, private_key_hex@) == Err::<Seq<char>, KeyError>(e),
        },
{
    let secret = match private_key_bytes(private_key_hex) {
        Ok(bytes) => bytes,
        Err(e) => {
            return Err(e);
        },
    };
    match derive_public_key(&secret) {
        Ok(key) => Ok(address_of_public_key(network, &key)),
        Err(_) => Err(KeyError::InvalidSecretKey),
    }
}

/// The mnemonic phrase of the private key written in `private_key_hex`,
/// which must be thirty-two bytes.
pub fn rothschild_mnemonic_from_private_key(private_key_hex: &str) -> (r: Result<String, KeyError>)
    ensures
        match r {
            Ok(phrase) => mnemonic_of_key(private_key_hex@) == Ok::<Seq<char>, KeyError>(phrase@),
            Err(e) => mnemonic_of_key(private_key_hex@) == Err::<Seq<char>, KeyError>(e),
        },
{
    let bytes = match private_key_bytes(private_key_hex) {
        Ok(bytes) => bytes,
        Err(e) => {
            return Err(e);
        },
    };
    if bytes.len() != KEY_LEN {
        return Err(KeyError::NotThirtyTwoBytes);
    }
    match phrase_of_entropy(bytes) {
        Ok(phrase) => Ok(phrase),
        Err(_) => {
            assert(false);
            Err(KeyError::NotThirtyTwoBytes)
        },
    }
}

/// Credentials that were generated are read back as they were made: the
/// stored private key decodes to the key it was written from, and its
/// address is the address of that key.
pub proof fn lemma_stored_key_reads_back(network: Network, secret: Seq<u8>)
    ensures
        key_bytes(hex_text(secret)) == Ok::<Seq<u8>, KeyError>(secret),
        public_key_of(secret) matches Some(key) ==> address_of_key(network, hex_text(secret)) == Ok::<
            Seq<char>,
            KeyError,
        >(address_text(network.is_testnet(), key)),
{
    lemma_hex_round_trip(secret);
}

/// White space around a private key does not change what it stands for.
pub proof fn lemma_key_ignores_padding(hex: Seq<char>)
    ensures
        key_bytes(trim(hex)) == key_bytes(hex),
{
    crate::text::lemma_strip_idempotent(hex, crate::text::CharClass::Space);
}

} // verus!
