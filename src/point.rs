//! Compressed P-256 points, the recipients of this scheme.

use vstd::prelude::*;
use crate::primitives::{
    ascii_text, bech32_encode, bech32_parsed, no_upper, bech32_text, compress_point, decompress_point, sec1_compressed,
    sec1_uncompressed, sha256, sha256_digest, valid_hrp,
};

verus! {

/// Length of a recipient fingerprint.
pub const TAG_BYTES: usize = 4;

/// A point on P-256, held in its 33-byte compressed SEC-1 encoding.
#[derive(Clone, Debug)]
pub struct Recipient {
    bytes: Vec<u8>,
}

/// The human-readable part of a recipient's text form.
pub open spec fn recipient_hrp() -> Seq<char> {
    seq!['a', 'g', 'e', '1', 'y', 'u', 'b', 'i', 'k', 'e', 'y']
}

/// The text form of the point whose compressed encoding is `c`.
pub open spec fn recipient_text(c: Seq<u8>) -> Seq<char> {
    bech32_text(recipient_hrp(), c)
}

/// The fingerprint of the point whose compressed encoding is `c`: the first
/// four bytes of SHA-256 of its text form.
pub open spec fn fingerprint_of(c: Seq<u8>) -> Seq<u8> {
    sha256_digest(vstd::utf8::encode_utf8(recipient_text(c))).subrange(0, 4)
}

/// `b` has the shape of a compressed (33 bytes, prefix 2 or 3) or an
/// uncompressed (65 bytes, prefix 4) SEC-1 point encoding.
pub open spec fn sec1_shape(b: Seq<u8>) -> bool {
    ||| b.len() == 33 && (b[0] == 2 || b[0] == 3)
    ||| b.len() == 65 && b[0] == 4
}

/// What `Recipient::from_bytes` gives for `b`: the compressed form of the
/// point, if `b` is a compressed or uncompressed encoding of one.
pub open spec fn parse_point(b: Seq<u8>) -> Option<Seq<u8>> {
    if sec1_shape(b) {
        sec1_compressed(b)
    } else {
        None
    }
}

impl Recipient {
    pub closed spec fn view(&self) -> Seq<u8> {
        self.bytes@
    }

    /// Every recipient is a valid point held in compressed form.
    pub open spec fn wf(&self) -> bool {
        &&& self@.len() == 33
        &&& self@[0] == 2 || self@[0] == 3
        &&& sec1_compressed(self@) == Some(self@)
    }

    /// Parses a compressed or uncompressed SEC-1 encoded point; any other
    /// encoding is refused. The result is always compressed.
    pub fn from_bytes(bytes: &[u8]) -> (r: Option<Recipient>)
        ensures
            r matches Some(p) ==> p.wf() && parse_point(bytes@) == Some(p@),
            r is None <==> parse_point(bytes@) is None,
            bytes@.len() == 33 && (bytes@[0] == 2 || bytes@[0] == 3) ==> (r matches Some(p) ==> p@ == bytes@),
    {
        let n = bytes.len();
        let shaped = (n == 33 && (bytes[0] == 2 || bytes[0] == 3)) || (n == 65 && bytes[0] == 4);
        if !shaped {
            return None;
        }
        match compress_point(bytes) {
            Some(c) => Some(Recipient { bytes: c }),
            None => None,
        }
    }

    /// The compressed SEC-1 encoding.
    pub fn as_bytes(&self) -> (r: &[u8])
        ensures
            r@ == self@,
    {
        self.bytes.as_slice()
    }

    /// The uncompressed SEC-1 encoding, as the key agreement takes it.
    pub fn decompress(&self) -> (r: Vec<u8>)
        requires
            self.wf(),
        ensures
            r@ == sec1_uncompressed(self@),
            r@.len() == 65,
            r@[0] == 4,
            sec1_compressed(r@) == Some(self@),
    {
        match decompress_point(self.bytes.as_slice()) {
            Some(u) => u,
            None => {
                proof {
                    assert(false);
                }
                Vec::new()
            }
        }
    }

    /// The bech32 text form, under the recipient prefix: lower-case ASCII,
    /// `age1yubikey1` followed by 59 characters. Decoding it gives back the
    /// prefix and the compressed point.
    pub fn to_string(&self) -> (r: String)
        ensures
            r@ == recipient_text(self@),
            ascii_text(r@) && no_upper(r@),
            self.wf() ==> r@.len() == 71,
            r@.subrange(0, 12) == recipient_hrp().push('1'),
            bech32_parsed(r@) == Some((recipient_hrp(), self@)),
    {
        let hrp = crate::RECIPIENT_PREFIX;
        proof {
            reveal_strlit("age1yubikey");
            assert(hrp@ =~= recipient_hrp());
            assert(valid_hrp(hrp@));
        }
        let r = bech32_encode(hrp, self.bytes.as_slice());
        assert(r@.subrange(0, 12) =~= r@.subrange(0, 11).push(r@[11]));
        r
    }

    /// The four-byte fingerprint that stanzas and stubs carry.
    pub fn tag(&self) -> (r: [u8; 4])
        ensures
            r@ == fingerprint_of(self@),
    {
        let text = self.to_string();
        let digest = sha256(text.as_str().as_bytes());
        let r: [u8; 4] = [digest[0], digest[1], digest[2], digest[3]];
        assert(r@ =~= fingerprint_of(self@));
        r
    }
}

/// Parsing the encoding of a recipient gives back that same point.
pub proof fn lemma_point_round_trip(p: Recipient)
    requires
        p.wf(),
    ensures
        parse_point(p@) == Some(p@),
{
}

/// The fingerprint depends on the point alone: equal points always have
/// equal fingerprints.
pub proof fn lemma_fingerprint_stable(p: Recipient, q: Recipient)
    requires
        p@ == q@,
    ensures
        fingerprint_of(p@) == fingerprint_of(q@),
{
}

} // verus!
