//! Authentication of inbound events: every event carries an Ed25519 signature
//! over its timestamp header followed by the exact bytes of its body, made
//! with the platform's private key.

use vstd::prelude::*;
use vstd::std_specs::iter::IteratorSpec;
use vstd::string::StrSliceExecFns;
use vstd::string::StringSliceAdditionalSpecFns;

verus! {

/// The number of bytes of a public key.
pub const KEY_LENGTH: usize = 32;

/// Whether these bytes are a public key that signatures can be checked against.
pub uninterp spec fn ed25519_key_valid(public_key: Seq<u8>) -> bool;

/// Whether `signature`, written in hexadecimal, is a signature of `message`
/// under `public_key`.
pub uninterp spec fn ed25519_accepts(public_key: Seq<u8>, signature: Seq<char>, message: Seq<u8>) -> bool;

/// Asks `serenity::interactions_endpoint::Verifier::try_new` whether it takes
/// the bytes as a public key. Trusted: the answer is a function of the bytes
/// alone.
#[verifier::external_body]
fn key_is_valid(public_key: &[u8; 32]) -> (valid: bool)
    ensures
        valid == ed25519_key_valid(public_key@),
{
    serenity::interactions_endpoint::Verifier::try_new(*public_key).is_ok()
}

/// Checks a signature with `serenity::interactions_endpoint::Verifier::verify`,
/// under a verifier made by `try_new` from the key. Trusted: the check is made
/// on the bytes of `timestamp` followed by `body`, and its answer is a
/// function of the key, the signature text and those bytes alone; a key that
/// `try_new` refuses accepts nothing.
#[verifier::external_body]
fn signature_is_valid(public_key: &[u8; 32], signature: &str, timestamp: &str, body: &[u8]) -> (valid: bool)
    ensures
        valid == (ed25519_key_valid(public_key@) && ed25519_accepts(
            public_key@,
            signature@,
            timestamp.spec_bytes() + body@,
        )),
{
    match serenity::interactions_endpoint::Verifier::try_new(*public_key) {
        Ok(verifier) => verifier.verify(signature, timestamp, body).is_ok(),
        Err(_) => false,
    }
}

/// The value of a hexadecimal digit, if the character is one.
pub open spec fn hex_digit(c: char) -> Option<u8> {
    if '0' <= c <= '9' {
        Some((c as u8 - '0' as u8) as u8)
    } else if 'a' <= c <= 'f' {
        Some((c as u8 - 'a' as u8 + 10) as u8)
    } else if 'A' <= c <= 'F' {
        Some((c as u8 - 'A' as u8 + 10) as u8)
    } else {
        None
    }
}

/// Whether the text is made of hexadecimal digits, two for each of `n` bytes.
pub open spec fn is_hex_of(text: Seq<char>, n: nat) -> bool {
    &&& text.len() == 2 * n
    &&& forall|i: int| 0 <= i < text.len() ==> hex_digit(#[trigger] text[i]) is Some
}

/// The bytes that a hexadecimal text writes, most significant digit first.
pub open spec fn hex_bytes(text: Seq<char>) -> Seq<u8> {
    Seq::new(
        text.len() / 2,
        |i: int| (16 * hex_digit(text[2 * i])->0 + hex_digit(text[2 * i + 1])->0) as u8,
    )
}

/// The value of a hexadecimal digit.
pub fn hex_digit_value(c: char) -> (value: Option<u8>)
    ensures
        value == hex_digit(c),
        value is Some ==> value->0 < 16,
{
    if '0' <= c && c <= '9' {
        Some(c as u8 - 48u8)
    } else if 'a' <= c && c <= 'f' {
        Some(c as u8 - 97u8 + 10)
    } else if 'A' <= c && c <= 'F' {
        Some(c as u8 - 65u8 + 10)
    } else {
        None
    }
}

/// Reads a public key written as 64 hexadecimal digits.
pub fn parse_key(text: &str) -> (key: Option<[u8; 32]>)
    ensures
        key is Some <==> is_hex_of(text@, KEY_LENGTH as nat),
        key is Some ==> key->0@ == hex_bytes(text@),
{
    broadcast use vstd::string::group_string_axioms;

    let total = text.unicode_len();
    if total != 2 * KEY_LENGTH {
        return None;
    }
    let mut key: [u8; 32] = [0u8; 32];
    let mut chars = text.chars();
    let mut i: usize = 0;
    while i < KEY_LENGTH
        invariant
            i <= KEY_LENGTH,
            text@.len() == 2 * KEY_LENGTH,
            chars.obeys_prophetic_iter_laws(),
            chars.remaining() == text@.subrange(2 * i, text@.len() as int),
            forall|k: int| 0 <= k < 2 * i ==> hex_digit(#[trigger] text@[k]) is Some,
            forall|k: int| 0 <= k < i ==> #[trigger] key@[k] == hex_bytes(text@)[k],
        decreases KEY_LENGTH - i,
    {
        let first = chars.next();
        assert(first == Some(text@[2 * i]));
        assert(chars.remaining() =~= text@.subrange(2 * i + 1, text@.len() as int));
        let second = chars.next();
        assert(second == Some(text@[2 * i + 1]));
        assert(chars.remaining() =~= text@.subrange(2 * (i + 1), text@.len() as int));
        let (high, low) = match (first, second) {
            (Some(a), Some(b)) => (hex_digit_value(a), hex_digit_value(b)),
            _ => (None, None),
        };
        match (high, low) {
            (Some(h), Some(l)) => {
                key[i] = 16 * h + l;
            },
            _ => {
                return None;
            },
        }
        i = i + 1;
    }
    assert(key@ =~= hex_bytes(text@));
    Some(key)
}

/// Why an inbound event was not accepted as authentic.
#[derive(Debug, Clone, Copy, PartialEq, Eq, Structural)]
pub enum VerificationError {
    /// The body of the request could not be read.
    UnreadableBody,
    /// The request has no signature header.
    MissingSignature,
    /// The signature header is not text.
    UnreadableSignature,
    /// The request has no timestamp header.
    MissingTimestamp,
    /// The timestamp header is not text.
    UnreadableTimestamp,
    /// The signature is not one of the timestamp and body under the key.
    InvalidSignature,
}

/// A header of a request, as far as the gateway reads it.
#[derive(Debug, Clone, PartialEq, Eq)]
pub enum HeaderValue {
    /// The request does not have the header.
    Missing,
    /// The header's value is not visible text.
    NotText,
    /// The header's value.
    Text(String),
}

/// Checks signatures against one public key.
pub struct SignatureVerifier {
    public_key: [u8; 32],
}

/// What checking a request gives: a body that could not be read is refused
/// first, then the first header that is missing or unreadable, the signature
/// before the timestamp; otherwise the verdict on the signature over the
/// timestamp's bytes followed by the body.
pub open spec fn request_verdict(
    public_key: Seq<u8>,
    signature: HeaderValue,
    timestamp: HeaderValue,
    body: Option<Seq<u8>>,
) -> Result<(), VerificationError> {
    match body {
        None => Err(VerificationError::UnreadableBody),
        Some(bytes) => match signature {
            HeaderValue::Missing => Err(VerificationError::MissingSignature),
            HeaderValue::NotText => Err(VerificationError::UnreadableSignature),
            HeaderValue::Text(signature_text) => match timestamp {
                HeaderValue::Missing => Err(VerificationError::MissingTimestamp),
                HeaderValue::NotText => Err(VerificationError::UnreadableTimestamp),
                HeaderValue::Text(timestamp_text) => if ed25519_accepts(
                    public_key,
                    signature_text@,
                    vstd::utf8::encode_utf8(timestamp_text@) + bytes,
                ) {
                    Ok(())
                } else {
                    Err(VerificationError::InvalidSignature)
                },
            },
        },
    }
}

/// The bytes of a body, if it was read.
pub open spec fn body_bytes(body: Option<&[u8]>) -> Option<Seq<u8>> {
    match body {
        Some(bytes) => Some(bytes@),
        None => None,
    }
}

impl SignatureVerifier {
    /// The public key that signatures are checked against.
    pub closed spec fn key(&self) -> Seq<u8> {
        self.public_key@
    }

    #[verifier::type_invariant]
    spec fn well_formed(&self) -> bool {
        ed25519_key_valid(self.public_key@)
    }

    /// A verifier for the given key, unless the bytes are no public key.
    pub fn try_new(public_key: [u8; 32]) -> (made: Option<SignatureVerifier>)
        ensures
            made is Some <==> ed25519_key_valid(public_key@),
            made is Some ==> made->0.key() == public_key@,
    {
        if key_is_valid(&public_key) {
            Some(SignatureVerifier { public_key })
        } else {
            None
        }
    }

    /// A verifier for the key written as 64 hexadecimal digits, unless the
    /// text is not of that form or its bytes are no public key.
    pub fn new(public_key: &str) -> (made: Option<SignatureVerifier>)
        ensures
            made is Some <==> is_hex_of(public_key@, KEY_LENGTH as nat) && ed25519_key_valid(
                hex_bytes(public_key@),
            ),
            made is Some ==> made->0.key() == hex_bytes(public_key@),
    {
        match parse_key(public_key) {
            Some(bytes) => SignatureVerifier::try_new(bytes),
            None => None,
        }
    }

    /// Accepts the signature exactly when it is one of the timestamp's bytes
    /// followed by the body, under this verifier's key.
    pub fn verify(&self, signature: &str, timestamp: &str, body: &[u8]) -> (verdict: Result<
        (),
        VerificationError,
    >)
        ensures
            verdict == if ed25519_accepts(
                self.key(),
                signature@,
                timestamp.spec_bytes() + body@,
            ) {
                Ok::<(), VerificationError>(())
            } else {
                Err::<(), VerificationError>(VerificationError::InvalidSignature)
            },
    {
        proof {
            use_type_invariant(self);
        }
        if signature_is_valid(&self.public_key, signature, timestamp, body) {
            Ok(())
        } else {
            Err(VerificationError::InvalidSignature)
        }
    }

    /// Checks a request from its two headers and the exact bytes of its body,
    /// `None` where the body could not be read.
    pub fn verify_request(
        &self,
        signature: &HeaderValue,
        timestamp: &HeaderValue,
        body: Option<&[u8]>,
    ) -> (verdict: Result<(), VerificationError>)
        ensures
            verdict == request_verdict(self.key(), *signature, *timestamp, body_bytes(body)),
    {
        let bytes = match body {
            Some(bytes) => bytes,
            None => {
                return Err(VerificationError::UnreadableBody);
            },
        };
        match signature {
            HeaderValue::Missing => Err(VerificationError::MissingSignature),
            HeaderValue::NotText => Err(VerificationError::UnreadableSignature),
            HeaderValue::Text(signature_text) => match timestamp {
                HeaderValue::Missing => Err(VerificationError::MissingTimestamp),
                HeaderValue::NotText => Err(VerificationError::UnreadableTimestamp),
                HeaderValue::Text(timestamp_text) => self.verify(
                    signature_text.as_str(),
                    timestamp_text.as_str(),
                    bytes,
                ),
            },
        }
    }
}

} // verus!
