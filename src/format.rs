//! The key-wrapping stanza: one recipient's encrypted copy of a file key.

use vstd::prelude::*;
use crate::point::{fingerprint_of, parse_point, Recipient};
use crate::primitives::{
    aead_decrypt, aead_encrypt, aead_opened, aead_sealed, agree_ephemeral, base64_bytes,
    base64_decode, base64_encode, base64_text, ephemeral_public_key, generate_ephemeral, hkdf,
    hkdf_sha256,
};
use crate::text::{concat, copy_bytes, str_eq};
use vstd::string::StringSliceAdditionalSpecFns;

verus! {

/// Context label of the key derivation.
pub const STANZA_KEY_LABEL: &'static str = "age-encryption.org/v1/piv-p256";

/// Length of a file key.
pub const FILE_KEY_BYTES: usize = 32;

/// Length of an encrypted file key: the file key plus the 16-byte AEAD tag.
pub const ENCRYPTED_FILE_KEY_BYTES: usize = 48;

/// Length of the ephemeral key, a compressed point.
pub const EPK_BYTES: usize = 33;

/// A generic record as the transport delivers it.
#[derive(Clone, Debug)]
pub struct Stanza {
    pub tag: String,
    pub args: Vec<String>,
    pub body: Vec<u8>,
}

/// A stanza that failed to parse although its tag is this scheme's.
#[derive(Clone, Copy, Debug, PartialEq, Eq)]
pub struct MalformedStanza;

/// A failure of the cryptography: RNG failure when wrapping, an invalid
/// agreement, or an AEAD authentication failure when unwrapping.
#[derive(Clone, Copy, Debug, PartialEq, Eq)]
pub struct CryptoFailure;

/// The parsed stanza of this scheme.
#[derive(Clone, Debug)]
pub struct RecipientLine {
    pub tag: [u8; 4],
    pub epk: Recipient,
    pub encrypted_file_key: Vec<u8>,
}

/// The stanza tag of this scheme.
pub open spec fn stanza_tag() -> Seq<char> {
    seq!['p', 'i', 'v', '-', 'p', '2', '5', '6']
}

/// The key-derivation label, as bytes.
pub open spec fn key_label() -> Seq<u8> {
    STANZA_KEY_LABEL.spec_bytes()
}

/// The wrapping key: HKDF over the agreement secret, salted with the
/// ephemeral point followed by the recipient point.
pub open spec fn wrapping_key(epk: Seq<u8>, pk: Seq<u8>, secret: Seq<u8>) -> Seq<u8> {
    hkdf_sha256(epk + pk, key_label(), secret)
}

/// The `n` bytes that a stanza argument decodes to: the argument must have
/// exactly the unpadded base64 length of `n` bytes and decode to `n` bytes.
pub open spec fn arg_bytes(arg: Seq<char>, n: nat) -> Option<Seq<u8>> {
    if arg.len() == (4 * n + 2) / 3 {
        match base64_bytes(arg) {
            Some(b) => if b.len() == n { Some(b) } else { None },
            None => None,
        }
    } else {
        None
    }
}

impl Stanza {
    /// The record carries two arguments that decode to a fingerprint and a
    /// valid compressed point, and a body of the encrypted file key's length.
    pub open spec fn well_formed(&self) -> bool {
        &&& self.args@.len() == 2
        &&& arg_bytes(self.args@[0]@, 4) is Some
        &&& arg_bytes(self.args@[1]@, 33) matches Some(e) && parse_point(e) is Some
        &&& self.body@.len() == 48
    }
}

fn base64_arg(arg: &String, n: usize) -> (r: Option<Vec<u8>>)
    requires
        n <= 64,
    ensures
        r matches Some(b) ==> arg_bytes(arg@, n as nat) == Some(b@),
        r is None ==> arg_bytes(arg@, n as nat) is None,
{
    if arg.as_str().unicode_len() != (4 * n + 2) / 3 {
        return None;
    }
    match base64_decode(arg.as_str()) {
        Some(b) => {
            if b.len() == n {
                Some(b)
            } else {
                None
            }
        },
        None => None,
    }
}

impl RecipientLine {
    pub open spec fn wf(&self) -> bool {
        &&& self.epk.wf()
        &&& self.encrypted_file_key@.len() == 48
    }

    /// What unwrapping with agreement secret `secret` for recipient `pk` yields.
    pub open spec fn unwrapped(&self, pk: Seq<u8>, secret: Seq<u8>) -> Option<Seq<u8>> {
        aead_opened(wrapping_key(self.epk@, pk, secret), self.encrypted_file_key@)
    }

    /// Parses a generic record: `None` if it belongs to another scheme,
    /// `Some(Err(..))` if it is this scheme's but malformed.
    pub fn from_stanza(s: &Stanza) -> (r: Option<Result<RecipientLine, MalformedStanza>>)
        ensures
            r is None <==> s.tag@ != stanza_tag(),
            r matches Some(Err(_)) <==> s.tag@ == stanza_tag() && !s.well_formed(),
            r matches Some(Ok(l)) ==> {
                &&& l.wf()
                &&& Some(l.tag@) == arg_bytes(s.args@[0]@, 4)
                &&& Some(l.epk@) == parse_point(arg_bytes(s.args@[1]@, 33)->0)
                &&& l.encrypted_file_key@ == s.body@
            },
    {
        let tag = crate::STANZA_TAG;
        proof {
            reveal_strlit("piv-p256");
            assert(tag@ =~= stanza_tag());
        }
        if !str_eq(s.tag.as_str(), tag) {
            return None;
        }
        if s.args.len() != 2 || s.body.len() != ENCRYPTED_FILE_KEY_BYTES {
            return Some(Err(MalformedStanza));
        }
        let t = match base64_arg(&s.args[0], 4) {
            Some(t) => t,
            None => return Some(Err(MalformedStanza)),
        };
        let e = match base64_arg(&s.args[1], EPK_BYTES) {
            Some(e) => e,
            None => return Some(Err(MalformedStanza)),
        };
        let epk = match Recipient::from_bytes(e.as_slice()) {
            Some(epk) => epk,
            None => return Some(Err(MalformedStanza)),
        };
        let tag_bytes: [u8; 4] = [t[0], t[1], t[2], t[3]];
        assert(tag_bytes@ =~= t@);
        Some(Ok(RecipientLine { tag: tag_bytes, epk, encrypted_file_key: copy_bytes(s.body.as_slice()) }))
    }

    /// Renders this stanza as a generic record, which `from_stanza` parses
    /// back into the same fingerprint, ephemeral key and ciphertext.
    pub fn to_stanza(&self) -> (r: Stanza)
        ensures
            self.wf() ==> r.well_formed(),
            arg_bytes(r.args@[0]@, 4) == Some(self.tag@),
            self.epk.wf() ==> arg_bytes(r.args@[1]@, 33) == Some(self.epk@),
            r.tag@ == stanza_tag(),
            r.args@.len() == 2,
            r.args@[0]@ == base64_text(self.tag@),
            r.args@[1]@ == base64_text(self.epk@),
            r.body@ == self.encrypted_file_key@,
    {
        let tag = crate::STANZA_TAG;
        proof {
            reveal_strlit("piv-p256");
            assert(tag@ =~= stanza_tag());
        }
        let mut args: Vec<String> = Vec::new();
        args.push(base64_encode(&self.tag));
        args.push(base64_encode(self.epk.as_bytes()));
        Stanza { tag: tag.to_owned(), args, body: copy_bytes(self.encrypted_file_key.as_slice()) }
    }

    /// Wraps `file_key` for `pk` under an ephemeral key `epk` whose agreement
    /// with `pk` gave `shared_secret`.
    pub fn wrap_with_secret(file_key: &[u8; 32], pk: &Recipient, epk: Recipient, shared_secret: &[u8]) -> (r: RecipientLine)
        requires
            pk.wf(),
            epk.wf(),
        ensures
            r.wf(),
            r.tag@ == fingerprint_of(pk@),
            r.epk@ == epk@,
            r.encrypted_file_key@ == aead_sealed(wrapping_key(epk@, pk@, shared_secret@), file_key@),
            r.unwrapped(pk@, shared_secret@) == Some(file_key@),
    {
        let salt = concat(epk.as_bytes(), pk.as_bytes());
        let label = STANZA_KEY_LABEL.as_bytes();
        let key = hkdf(salt.as_slice(), label, shared_secret);
        let encrypted_file_key = aead_encrypt(&key, file_key);
        RecipientLine { tag: pk.tag(), epk, encrypted_file_key }
    }

    /// Wraps `file_key` for `pk` under a fresh ephemeral key. Fails only if
    /// the random generator or the key agreement fails.
    pub fn wrap_file_key(file_key: &[u8; 32], pk: &Recipient) -> (r: Result<RecipientLine, CryptoFailure>)
        requires
            pk.wf(),
        ensures
            r matches Ok(l) ==> {
                &&& l.wf()
                &&& l.tag@ == fingerprint_of(pk@)
                &&& exists|secret: Seq<u8>|
                    secret.len() == 32 && #[trigger] l.unwrapped(pk@, secret) == Some(file_key@)
            },
    {
        let esk = match generate_ephemeral() {
            Some(k) => k,
            None => return Err(CryptoFailure),
        };
        let raw_epk = match ephemeral_public_key(&esk) {
            Some(e) => e,
            None => return Err(CryptoFailure),
        };
        let epk = match Recipient::from_bytes(raw_epk.as_slice()) {
            Some(e) => e,
            None => return Err(CryptoFailure),
        };
        let peer = pk.decompress();
        let secret = match agree_ephemeral(esk, peer.as_slice()) {
            Some(s) => s,
            None => return Err(CryptoFailure),
        };
        let l = Self::wrap_with_secret(file_key, pk, epk, secret.as_slice());
        assert(secret@.len() == 32 && l.unwrapped(pk@, secret@) == Some(file_key@));
        Ok(l)
    }

    /// Unwraps the file key with the agreement secret between this stanza's
    /// ephemeral key and recipient `pk`. Any authentication failure is final.
    pub fn unwrap_with_secret(&self, pk: &Recipient, shared_secret: &[u8]) -> (r: Result<[u8; 32], CryptoFailure>)
        requires
            self.wf(),
            pk.wf(),
        ensures
            r is Ok <==> self.unwrapped(pk@, shared_secret@) is Some,
            r matches Ok(k) ==> self.unwrapped(pk@, shared_secret@) == Some(k@),
    {
        let salt = concat(self.epk.as_bytes(), pk.as_bytes());
        let label = STANZA_KEY_LABEL.as_bytes();
        let key = hkdf(salt.as_slice(), label, shared_secret);
        match aead_decrypt(&key, FILE_KEY_BYTES, self.encrypted_file_key.as_slice()) {
            Some(p) => {
                let k: [u8; 32] = [
                    p[0], p[1], p[2], p[3], p[4], p[5], p[6], p[7],
                    p[8], p[9], p[10], p[11], p[12], p[13], p[14], p[15],
                    p[16], p[17], p[18], p[19], p[20], p[21], p[22], p[23],
                    p[24], p[25], p[26], p[27], p[28], p[29], p[30], p[31],
                ];
                assert(k@ =~= p@);
                Ok(k)
            },
            None => Err(CryptoFailure),
        }
    }
}

} // verus!
