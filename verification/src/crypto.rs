//! The crypto provider: keypair generation, sealed asymmetric encryption and
//! decryption, and key-format validation.
//!
//! Keys and ciphertexts are carried as text; the provider owns the binary
//! encoding so callers never see raw bytes.  The primitive itself lives in an
//! outside crate and is reached through a handful of trusted wrappers; what
//! each relies on is stated on the wrapper.

use vstd::prelude::*;

verus! {

use age::secrecy::ExposeSecret;
use base64::Engine;

/// An asymmetric keypair, both keys in their textual encoding.
///
/// The public key is safe to share; the private key must never leave the
/// holder except encrypted to the holder's own chosen recipient.
pub struct KeyPair {
    pub public_key: String,
    pub private_key: String,
}

/// Errors of the crypto provider.
#[derive(Clone, Copy, Debug, PartialEq, Eq, Structural)]
pub enum CryptoError {
    /// The key string does not parse as key material.
    InvalidKey,
    /// The ciphertext is not well-formed transport text (its base64 layer does
    /// not decode).  Distinct from an undecryptable-but-well-formed
    /// ciphertext, which is reported as a plain `None`.
    MalformedCiphertext,
}

/// Whether a string parses as a recipient (public) key.
pub uninterp spec fn valid_public_key(s: Seq<char>) -> bool;

/// Whether a string parses as an identity (private) key.
pub uninterp spec fn valid_private_key(s: Seq<char>) -> bool;

/// The textual public key derived from a private key, in canonical encoding.
pub uninterp spec fn public_of(private_key: Seq<char>) -> Seq<char>;

/// The canonical re-encoding of a public-key string: what parsing the string
/// and printing the parsed key yields.  The key encoding is case-insensitive,
/// so distinct strings can name one key; this picks the printed form.
pub uninterp spec fn canonical_recipient(s: Seq<char>) -> Seq<char>;

/// What decrypting sealed bytes with a private key yields: the plaintext, or
/// `None` when the bytes cannot be opened with that key.
pub uninterp spec fn opened(private_key: Seq<char>, sealed: Seq<u8>) -> Option<Seq<char>>;

/// The base64 text encoding of a byte string.
pub uninterp spec fn b64_encoding(bytes: Seq<u8>) -> Seq<char>;

/// The bytes a base64 text decodes to, or `None` when it is not valid base64.
pub uninterp spec fn b64_decoding(s: Seq<char>) -> Option<Seq<u8>>;

/// Relies on `age::x25519::Recipient::from_str`: whether the string parses as
/// an x25519 recipient key.
#[verifier::external_body]
fn parse_recipient_ok(s: &str) -> (b: bool)
    ensures
        b == valid_public_key(s@),
{
    s.parse::<age::x25519::Recipient>().is_ok()
}

/// Relies on `age::x25519::Identity::from_str`: whether the string parses as
/// an x25519 identity key.
#[verifier::external_body]
fn parse_identity_ok(s: &str) -> (b: bool)
    ensures
        b == valid_private_key(s@),
{
    s.parse::<age::x25519::Identity>().is_ok()
}

/// Relies on `age::x25519::Identity::generate`, `Identity::to_string` and
/// `Identity::to_public`: a fresh keypair.  Every outcome is a parseable
/// private key whose derived public key is the returned one, printed in its
/// canonical form.  Fails only on catastrophic randomness failure, which the
/// primitive treats as fatal.
#[verifier::external_body]
fn generate_identity() -> (kp: KeyPair)
    ensures
        valid_private_key(kp.private_key@),
        valid_public_key(kp.public_key@),
        kp.public_key@ == public_of(kp.private_key@),
        canonical_recipient(kp.public_key@) == kp.public_key@,
{
    let identity = age::x25519::Identity::generate();
    let public_key = identity.to_public().to_string();
    let secret = identity.to_string();
    let private_key = secret.expose_secret().to_string();
    KeyPair { public_key, private_key }
}

/// Relies on `age::x25519::Identity::from_str`, `Identity::to_public` and the
/// recipient's `Display`: the public key a private key determines, in
/// canonical form.
#[verifier::external_body]
fn derive_recipient(private_key: &str) -> (r: String)
    requires
        valid_private_key(private_key@),
    ensures
        r@ == public_of(private_key@),
        valid_public_key(r@),
        canonical_recipient(r@) == r@,
{
    match private_key.parse::<age::x25519::Identity>() {
        Ok(id) => id.to_public().to_string(),
        Err(_) => String::new(),
    }
}

/// Relies on `age::Encryptor::with_recipients` and its stream writer, with a
/// single x25519 recipient and an in-memory sink: succeeds exactly when the
/// recipient string parses, and seals the plaintext so that precisely the
/// matching identity opens it and any other valid identity gets `None`.
#[verifier::external_body]
fn age_seal(recipient: &str, plaintext: &str) -> (r: Option<Vec<u8>>)
    ensures
        r is Some <==> valid_public_key(recipient@),
        r matches Some(ct) ==> forall|k: Seq<char>|
            valid_private_key(k) ==> #[trigger] opened(k, ct@) == (if public_of(k)
                == canonical_recipient(recipient@) {
                Some(plaintext@)
            } else {
                None::<Seq<char>>
            }),
{
    let parsed: age::x25519::Recipient = match recipient.parse() { Ok(r) => r, Err(_) => return None };
    let one = std::iter::once(&parsed as &dyn age::Recipient);
    let encryptor = match age::Encryptor::with_recipients(one) { Ok(e) => e, Err(_) => return None };
    let mut sealed: Vec<u8> = Vec::new();
    let mut writer = match encryptor.wrap_output(&mut sealed) { Ok(w) => w, Err(_) => return None };
    if std::io::Write::write_all(&mut writer, plaintext.as_bytes()).is_err() { return None; }
    if writer.finish().is_err() { return None; }
    Some(sealed)
}

/// Relies on `age::Decryptor::new` and `Decryptor::decrypt` with a single
/// x25519 identity: opens sealed bytes.  A malformed header, a non-matching
/// key, a corrupt payload and non-UTF-8 plaintext all yield `None`; they are
/// indistinguishable to callers by design.
#[verifier::external_body]
fn age_open(private_key: &str, sealed: &Vec<u8>) -> (r: Option<String>)
    requires
        valid_private_key(private_key@),
    ensures
        r.deep_view() == opened(private_key@, sealed@),
{
    let id: age::x25519::Identity = match private_key.parse() { Ok(i) => i, Err(_) => return None };
    let decryptor = match age::Decryptor::new(&sealed[..]) { Ok(d) => d, Err(_) => return None };
    let ids = std::iter::once(&id as &dyn age::Identity);
    let mut reader = match decryptor.decrypt(ids) { Ok(r) => r, Err(_) => return None };
    let mut buf: Vec<u8> = Vec::new();
    if std::io::Read::read_to_end(&mut reader, &mut buf).is_err() { return None; }
    String::from_utf8(buf).ok()
}

/// Relies on `base64::engine::general_purpose::STANDARD.encode`, and on the
/// documented guarantee that decoding inverts encoding.
#[verifier::external_body]
fn b64_encode(bytes: &Vec<u8>) -> (r: String)
    ensures
        r@ == b64_encoding(bytes@),
        b64_decoding(r@) == Some(bytes@),
{
    base64::engine::general_purpose::STANDARD.encode(bytes)
}

/// Relies on `base64::engine::general_purpose::STANDARD.decode`.
#[verifier::external_body]
fn b64_decode(s: &str) -> (r: Option<Vec<u8>>)
    ensures
        r.deep_view() == b64_decoding(s@),
{
    base64::engine::general_purpose::STANDARD.decode(s).ok()
}

/// A sealed ciphertext text `ct` carries `plaintext` for the holder of the
/// private key behind `recipient`: its base64 layer decodes, the matching
/// identity opens it to the plaintext, and every other valid identity gets
/// `None`.
pub open spec fn ciphertext_for(ct: Seq<char>, recipient: Seq<char>, plaintext: Seq<char>) -> bool {
    &&& b64_decoding(ct) is Some
    &&& forall|k: Seq<char>|
        valid_private_key(k) ==> #[trigger] opened(k, b64_decoding(ct)->Some_0) == (if public_of(k)
            == recipient {
            Some(plaintext)
        } else {
            None::<Seq<char>>
        })
}

/// What `decrypt` yields: `InvalidKey` when the private key does not parse,
/// `MalformedCiphertext` when the base64 layer does not decode, otherwise the
/// opening of the sealed bytes.
pub open spec fn decryption_of(private_key: Seq<char>, ciphertext: Seq<char>) -> Result<
    Option<Seq<char>>,
    CryptoError,
> {
    if !valid_private_key(private_key) {
        Err(CryptoError::InvalidKey)
    } else {
        match b64_decoding(ciphertext) {
            Option::None => Err(CryptoError::MalformedCiphertext),
            Option::Some(bytes) => Ok(opened(private_key, bytes)),
        }
    }
}

/// Produces a fresh keypair; the derived public key is the returned one.
pub fn generate_keypair() -> (kp: KeyPair)
    ensures
        valid_private_key(kp.private_key@),
        valid_public_key(kp.public_key@),
        kp.public_key@ == public_of(kp.private_key@),
        canonical_recipient(kp.public_key@) == kp.public_key@,
{
    generate_identity()
}

/// Cheap format check for a public key; needs no network access.
pub fn validate_public_key(s: &str) -> (b: bool)
    ensures
        b == valid_public_key(s@),
{
    parse_recipient_ok(s)
}

/// Cheap format check for a private key; needs no network access.
pub fn validate_private_key(s: &str) -> (b: bool)
    ensures
        b == valid_private_key(s@),
{
    parse_identity_ok(s)
}

/// Derives the public key of a private key, or `InvalidKey` when the private
/// key does not parse.
pub fn generate_public_key_from_private(private_key: &str) -> (r: Result<String, CryptoError>)
    ensures
        r is Ok <==> valid_private_key(private_key@),
        r matches Err(e) ==> e == CryptoError::InvalidKey,
        r matches Ok(pk) ==> pk@ == public_of(private_key@) && valid_public_key(pk@)
            && canonical_recipient(pk@) == pk@,
{
    if validate_private_key(private_key) {
        Ok(derive_recipient(private_key))
    } else {
        Err(CryptoError::InvalidKey)
    }
}

/// Seals a plaintext for a recipient.  Succeeds exactly when the recipient
/// public key parses; the result is transport text whose base64 layer decodes
/// to the sealed bytes, openable precisely by the matching identity.
pub fn encrypt(recipient_public_key: &str, plaintext: &str) -> (r: Result<String, CryptoError>)
    ensures
        r is Ok <==> valid_public_key(recipient_public_key@),
        r matches Err(e) ==> e == CryptoError::InvalidKey,
        r matches Ok(ct) ==> ciphertext_for(
            ct@,
            canonical_recipient(recipient_public_key@),
            plaintext@,
        ),
{
    match age_seal(recipient_public_key, plaintext) {
        Some(ct_bytes) => {
            let ct = b64_encode(&ct_bytes);
            assert(b64_decoding(ct@) == Some(ct_bytes@));
            Ok(ct)
        },
        None => Err(CryptoError::InvalidKey),
    }
}

/// Opens a ciphertext text.  `InvalidKey` when the private key does not
/// parse; `MalformedCiphertext` when the text is not base64; `Ok(None)` when
/// the sealed bytes cannot be opened with this key — wrong key and corrupt
/// payload are indistinguishable by design; `Ok(Some(m))` otherwise.
pub fn decrypt(private_key: &str, ciphertext: &str) -> (r: Result<Option<String>, CryptoError>)
    ensures
        match r {
            Ok(p) => decryption_of(private_key@, ciphertext@) == Ok::<
                Option<Seq<char>>,
                CryptoError,
            >(p.deep_view()),
            Err(e) => decryption_of(private_key@, ciphertext@) == Err::<
                Option<Seq<char>>,
                CryptoError,
            >(e),
        },
{
    if !validate_private_key(private_key) {
        return Err(CryptoError::InvalidKey);
    }
    match b64_decode(ciphertext) {
        Some(bytes) => {
            proof {
                assert(bytes.deep_view() =~= bytes@);
            }
            Ok(age_open(private_key, &bytes))
        },
        None => Err(CryptoError::MalformedCiphertext),
    }
}

/// Round-trip law: a ciphertext sealed for the public key a private key
/// determines decrypts under that private key to exactly the plaintext.
pub proof fn lemma_round_trip(private_key: Seq<char>, ct: Seq<char>, m: Seq<char>)
    requires
        valid_private_key(private_key),
        ciphertext_for(ct, public_of(private_key), m),
    ensures
        decryption_of(private_key, ct) == Ok::<Option<Seq<char>>, CryptoError>(Some(m)),
{
    assert(opened(private_key, b64_decoding(ct)->Some_0) == Some(m));
}

/// Wrong-key law: a ciphertext sealed for one public key decrypts under a
/// private key of any other public key to `None`, not to a plaintext and not
/// to an error.
pub proof fn lemma_wrong_key(private_key: Seq<char>, recipient: Seq<char>, ct: Seq<char>, m: Seq<char>)
    requires
        valid_private_key(private_key),
        ciphertext_for(ct, recipient, m),
        public_of(private_key) != recipient,
    ensures
        decryption_of(private_key, ct) == Ok::<Option<Seq<char>>, CryptoError>(None::<Seq<char>>),
{
    assert(opened(private_key, b64_decoding(ct)->Some_0) == None::<Seq<char>>);
}

} // verus!
