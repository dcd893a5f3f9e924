//! Trusted boundary to the outside cryptographic and encoding crates.
//!
//! Each item here names the outside function it calls. Where the result is
//! too long to state (a digest, a checksummed encoding, a ciphertext) it is
//! given a name, a spec function without a body, and the verified code speaks
//! of that name.

use vstd::prelude::*;
use p256::elliptic_curve::sec1::ToEncodedPoint;
use sha2::Digest;
use bech32::{FromBase32, ToBase32};
use ring::agreement::EphemeralPrivateKey;

verus! {

/// The compressed SEC-1 encoding of the P-256 point that `b` encodes, if `b`
/// is a valid SEC-1 encoding of a point on the curve.
pub uninterp spec fn sec1_compressed(b: Seq<u8>) -> Option<Seq<u8>>;

/// The uncompressed SEC-1 encoding of the P-256 point that `b` encodes.
pub uninterp spec fn sec1_uncompressed(b: Seq<u8>) -> Seq<u8>;

/// SHA-256 of `data`.
pub uninterp spec fn sha256_digest(data: Seq<u8>) -> Seq<u8>;

/// The bech32 string (classic checksum) of `data` under human-readable part `hrp`.
pub uninterp spec fn bech32_text(hrp: Seq<char>, data: Seq<u8>) -> Seq<char>;

/// A human-readable part that bech32 encoding accepts: 1 to 83 printable
/// ASCII characters, here restricted to ones without upper-case letters.
pub open spec fn valid_hrp(h: Seq<char>) -> bool {
    &&& 1 <= h.len() <= 83
    &&& forall|i: int|
        0 <= i < h.len() ==> 33 <= #[trigger] (h[i] as u32) <= 126 && !('A' <= h[i] && h[i] <= 'Z')
}

/// Relies on `p256::PublicKey::from_sec1_bytes` (accepts a SEC-1 encoding of
/// a point on the curve other than the identity, rejects the rest) and on
/// `to_encoded_point(true)`, whose output is the 33-byte compressed form;
/// the compressed form of a valid point decodes to that same point, and a
/// valid compressed input is its own compressed form.
#[verifier::external_body]
pub(crate) fn compress_point(b: &[u8]) -> (r: Option<Vec<u8>>)
    ensures
        r matches Some(c) ==> sec1_compressed(b@) == Some(c@),
        r is None ==> sec1_compressed(b@) is None,
        r matches Some(c) ==> c@.len() == 33 && (c@[0] == 2 || c@[0] == 3),
        r matches Some(c) ==> sec1_compressed(c@) == Some(c@),
        r matches Some(c) ==> (b@.len() == 33 && (b@[0] == 2 || b@[0] == 3) ==> c@ == b@),
{
    p256::PublicKey::from_sec1_bytes(b).ok().map(|p| p.to_encoded_point(true).as_bytes().to_vec())
}

/// Relies on `p256::PublicKey::from_sec1_bytes` and `to_encoded_point(false)`:
/// a valid point has a 65-byte uncompressed encoding with the `0x04` prefix,
/// which decodes to the same point.
#[verifier::external_body]
pub(crate) fn decompress_point(c: &[u8]) -> (r: Option<Vec<u8>>)
    ensures
        r is Some <==> sec1_compressed(c@) is Some,
        r matches Some(u) ==> u@ == sec1_uncompressed(c@) && u@.len() == 65 && u@[0] == 4,
        r matches Some(u) ==> sec1_compressed(u@) == sec1_compressed(c@),
{
    p256::PublicKey::from_sec1_bytes(c).ok().map(|p| p.to_encoded_point(false).as_bytes().to_vec())
}

/// Relies on `sha2::Sha256::digest`: a 32-byte digest of the input alone.
#[verifier::external_body]
pub(crate) fn sha256(data: &[u8]) -> (r: Vec<u8>)
    ensures
        r@ == sha256_digest(data@),
        r@.len() == 32,
{
    sha2::Sha256::digest(data).to_vec()
}

/// Relies on `bech32::encode` with the classic variant, after `to_base32`;
/// it fails only on an invalid human-readable part. The output is lower-case
/// ASCII: the part, `1`, `ceil(8n/5)` characters of the lower-case charset
/// for the data and six for the checksum; `bech32::decode` with
/// `from_base32` gives back the part and the bytes.
#[verifier::external_body]
pub(crate) fn bech32_encode(hrp: &str, data: &[u8]) -> (r: String)
    requires
        valid_hrp(hrp@),
    ensures
        r@ == bech32_text(hrp@, data@),
        ascii_text(r@) && no_upper(r@),
        r@.len() == hrp@.len() + 1 + (8 * data@.len() + 4) / 5 + 6,
        r@.subrange(0, hrp@.len() as int) == hrp@ && r@[hrp@.len() as int] == '1',
        bech32_parsed(r@) == Some((hrp@, data@)),
{
    bech32::encode(hrp, data.to_base32(), bech32::Variant::Bech32).expect("valid hrp")
}

/// Padding-free standard base64 of `data`.
pub uninterp spec fn base64_text(data: Seq<u8>) -> Seq<char>;

/// The bytes that padding-free standard base64 text `s` decodes to, if it is valid.
pub uninterp spec fn base64_bytes(s: Seq<char>) -> Option<Seq<u8>>;

/// HKDF-SHA-256 with the given salt and label, expanded to 32 bytes.
pub uninterp spec fn hkdf_sha256(salt: Seq<u8>, label: Seq<u8>, ikm: Seq<u8>) -> Seq<u8>;

/// ChaCha20-Poly1305 encryption of `plaintext` under `key` with the zero nonce.
pub uninterp spec fn aead_sealed(key: Seq<u8>, plaintext: Seq<u8>) -> Seq<u8>;

/// ChaCha20-Poly1305 decryption of `ciphertext` under `key` with the zero
/// nonce, if it authenticates.
pub uninterp spec fn aead_opened(key: Seq<u8>, ciphertext: Seq<u8>) -> Option<Seq<u8>>;

/// Relies on `base64::encode_config` with `STANDARD_NO_PAD`: the text has
/// `ceil(4n/3)` characters and `decode_config` gives the bytes back.
#[verifier::external_body]
pub(crate) fn base64_encode(data: &[u8]) -> (r: String)
    ensures
        r@ == base64_text(data@),
        r@.len() == (4 * data@.len() + 2) / 3,
        base64_bytes(r@) == Some(data@),
{
    base64::encode_config(data, base64::STANDARD_NO_PAD)
}

/// Relies on `base64::decode_config` with `STANDARD_NO_PAD`.
#[verifier::external_body]
pub(crate) fn base64_decode(s: &str) -> (r: Option<Vec<u8>>)
    ensures
        r matches Some(b) ==> base64_bytes(s@) == Some(b@),
        r is None ==> base64_bytes(s@) is None,
{
    base64::decode_config(s, base64::STANDARD_NO_PAD).ok()
}

/// Relies on `age_core::primitives::hkdf`: HKDF-SHA-256 to a 32-byte key.
#[verifier::external_body]
pub(crate) fn hkdf(salt: &[u8], label: &[u8], ikm: &[u8]) -> (r: [u8; 32])
    ensures
        r@ == hkdf_sha256(salt@, label@, ikm@),
{
    age_core::primitives::hkdf(salt, label, ikm)
}

/// Relies on `age_core::primitives::aead_encrypt`: ChaCha20-Poly1305 appends
/// a 16-byte tag, and decrypting under the same key and nonce gives the
/// plaintext back; it fails only past the cipher's block-counter limit, far
/// beyond the bound required here.
#[verifier::external_body]
pub(crate) fn aead_encrypt(key: &[u8; 32], plaintext: &[u8]) -> (r: Vec<u8>)
    requires
        plaintext@.len() <= 65536,
    ensures
        r@ == aead_sealed(key@, plaintext@),
        r@.len() == plaintext@.len() + 16,
        aead_opened(key@, r@) == Some(plaintext@),
{
    age_core::primitives::aead_encrypt(key, plaintext)
}

/// Relies on `age_core::primitives::aead_decrypt`: it refuses a ciphertext
/// whose length is not `size` plus the 16-byte tag, and otherwise returns the
/// plaintext exactly when the tag authenticates.
#[verifier::external_body]
pub(crate) fn aead_decrypt(key: &[u8; 32], size: usize, ciphertext: &[u8]) -> (r: Option<Vec<u8>>)
    requires
        size <= 65536,
    ensures
        ciphertext@.len() != size + 16 ==> r is None,
        ciphertext@.len() == size + 16 ==> (r is Some <==> aead_opened(key@, ciphertext@) is Some),
        r matches Some(p) ==> aead_opened(key@, ciphertext@) == Some(p@) && p@.len() == size,
{
    age_core::primitives::aead_decrypt(key, size, ciphertext).ok()
}

#[verifier::external_type_specification]
#[verifier::external_body]
pub struct ExEphemeralPrivateKey(ring::agreement::EphemeralPrivateKey);

/// Relies on `ring::agreement::EphemeralPrivateKey::generate` for P-256,
/// drawing from `ring::rand::SystemRandom`; fails only if the RNG fails.
#[verifier::external_body]
pub(crate) fn generate_ephemeral() -> (r: Option<EphemeralPrivateKey>) {
    EphemeralPrivateKey::generate(&ring::agreement::ECDH_P256, &ring::rand::SystemRandom::new()).ok()
}

/// Relies on `ring::agreement::EphemeralPrivateKey::compute_public_key`: for
/// P-256 the key is in uncompressed form, 65 bytes starting with `0x04`.
#[verifier::external_body]
pub(crate) fn ephemeral_public_key(k: &EphemeralPrivateKey) -> (r: Option<Vec<u8>>)
    ensures
        r matches Some(e) ==> e@.len() == 65 && e@[0] == 4,
{
    k.compute_public_key().ok().map(|p| p.as_ref().to_vec())
}

/// Relies on `ring::agreement::agree_ephemeral` for P-256: the shared secret
/// is the 32-byte x-coordinate; it fails on an invalid peer key.
#[verifier::external_body]
pub(crate) fn agree_ephemeral(k: EphemeralPrivateKey, peer: &[u8]) -> (r: Option<Vec<u8>>)
    ensures
        r matches Some(s) ==> s@.len() == 32,
{
    let peer = ring::agreement::UnparsedPublicKey::new(&ring::agreement::ECDH_P256, peer);
    ring::agreement::agree_ephemeral(k, &peer, |s| s.to_vec()).ok()
}

/// What `bech32::decode` gives for `s` when it holds a classic-checksum
/// string: the lower-cased human-readable part and the data bytes.
pub uninterp spec fn bech32_parsed(s: Seq<char>) -> Option<(Seq<char>, Seq<u8>)>;

/// An ASCII letter `a` to `z`.
pub open spec fn is_lower(c: char) -> bool {
    'a' <= c && c <= 'z'
}

/// An ASCII letter `A` to `Z`.
pub open spec fn is_upper(c: char) -> bool {
    'A' <= c && c <= 'Z'
}

/// All characters of `s` are ASCII.
pub open spec fn ascii_text(s: Seq<char>) -> bool {
    forall|i: int| 0 <= i < s.len() ==> (#[trigger] s[i] as u32) < 128
}

/// `s` holds no upper-case ASCII letter.
pub open spec fn no_upper(s: Seq<char>) -> bool {
    forall|i: int| 0 <= i < s.len() ==> !is_upper(#[trigger] s[i])
}

/// `s` holds no lower-case ASCII letter.
pub open spec fn no_lower(s: Seq<char>) -> bool {
    forall|i: int| 0 <= i < s.len() ==> !is_lower(#[trigger] s[i])
}

pub open spec fn upper_char(c: char) -> char {
    if is_lower(c) { ((c as u32) - 32) as char } else { c }
}

pub open spec fn lower_char(c: char) -> char {
    if is_upper(c) { ((c as u32) + 32) as char } else { c }
}

/// `s` with its ASCII letters in upper case.
pub open spec fn ascii_upper(s: Seq<char>) -> Seq<char> {
    s.map_values(|c: char| upper_char(c))
}

/// `s` with its ASCII letters in lower case.
pub open spec fn ascii_lower(s: Seq<char>) -> Seq<char> {
    s.map_values(|c: char| lower_char(c))
}

/// What decoding `s` gives: bech32 decoding reads an all-upper-case string as
/// its lower-case form.
pub open spec fn bech32_decoded(s: Seq<char>) -> Option<(Seq<char>, Seq<u8>)> {
    if ascii_text(s) && no_lower(s) {
        bech32_parsed(ascii_lower(s))
    } else {
        bech32_parsed(s)
    }
}

/// Upper-casing lower-case ASCII text and lower-casing it again gives it back.
pub proof fn lemma_case_round_trip(t: Seq<char>)
    requires
        ascii_text(t),
        no_upper(t),
    ensures
        ascii_text(ascii_upper(t)),
        no_lower(ascii_upper(t)),
        ascii_lower(ascii_upper(t)) == t,
{
    assert(ascii_lower(ascii_upper(t)) =~= t);
}

/// Relies on `bech32::decode`, keeping the classic variant, and on
/// `from_base32` for the data; either failing gives `None`. An all-upper-case
/// ASCII string decodes as its lower-case form: the part is lower-cased and
/// the charset is read without regard to case.
#[verifier::external_body]
pub(crate) fn bech32_decode(s: &str) -> (r: Option<(String, Vec<u8>)>)
    ensures
        r matches Some((h, d)) ==> bech32_decoded(s@) == Some((h@, d@)),
        r is None ==> bech32_decoded(s@) is None,
{
    match bech32::decode(s) {
        Ok((hrp, data, bech32::Variant::Bech32)) => Vec::<u8>::from_base32(&data).ok().map(|d| (hrp, d)),
        Ok((_, _, bech32::Variant::Bech32m)) => None,
        Err(_) => None,
    }
}

/// Relies on `str::to_uppercase`: on ASCII text it maps `a` to `z` to `A`
/// to `Z` and keeps every other character.
#[verifier::external_body]
pub(crate) fn to_uppercase(s: &str) -> (r: String)
    ensures
        ascii_text(s@) ==> r@ == ascii_upper(s@),
{
    s.to_uppercase()
}

/// The lower-case hexadecimal digits, by value.
pub open spec fn hex_digits() -> Seq<char> {
    seq!['0', '1', '2', '3', '4', '5', '6', '7', '8', '9', 'a', 'b', 'c', 'd', 'e', 'f']
}

/// Lower-case hexadecimal text of `b`: two digits per byte, high nibble first.
pub open spec fn is_hex_of(t: Seq<char>, b: Seq<u8>) -> bool {
    &&& t.len() == 2 * b.len()
    &&& forall|i: int| 0 <= i < b.len() ==> #[trigger] t[2 * i] == hex_digits()[(b[i] / 16) as int] && t[2 * i + 1] == hex_digits()[(b[i] % 16) as int]
}

/// Relies on `hex::encode`: lower-case digits, two per byte, high nibble first.
#[verifier::external_body]
pub(crate) fn hex_encode(b: &[u8]) -> (r: String)
    ensures
        is_hex_of(r@, b@),
{
    hex::encode(b)
}

} // verus!
