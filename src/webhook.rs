//! Authenticity check of inbound webhook messages.
//!
//! The platform signs each message with HMAC-SHA256 keyed by the shared
//! secret, over the message id, the timestamp and the raw body, and sends the
//! tag hex-encoded behind a scheme prefix (`sha256=`).
use vstd::prelude::*;

use hmac::{Hmac, Mac};
use sha2::Sha256;

verus! {

/// Length of the scheme prefix in front of the hex-encoded tag.
pub const SIGNATURE_PREFIX_LEN: usize = 7;

pub open spec fn is_hex_digit(c: u8) -> bool {
    (48 <= c <= 57) || (65 <= c <= 70) || (97 <= c <= 102)
}

pub open spec fn hex_value(c: u8) -> int {
    if 48 <= c <= 57 {
        c - 48
    } else if 65 <= c <= 70 {
        c - 55
    } else {
        c - 87
    }
}

/// Text that decodes as hex: an even number of hex digits, either case.
pub open spec fn is_hex_text(s: Seq<u8>) -> bool {
    s.len() % 2 == 0 && forall|i: int| 0 <= i < s.len() ==> is_hex_digit(#[trigger] s[i])
}

/// The bytes that hex text stands for, two digits each, high digit first.
pub open spec fn hex_bytes(s: Seq<u8>) -> Seq<u8> {
    Seq::new(s.len() / 2, |i: int| (hex_value(s[2 * i]) * 16 + hex_value(s[2 * i + 1])) as u8)
}

/// The HMAC-SHA256 tag of `message` under `key`.
pub uninterp spec fn hmac_sha256(key: Seq<u8>, message: Seq<u8>) -> Seq<u8>;

/// The bytes the platform signs: id, timestamp and body, with no separator.
pub open spec fn signed_message(message_id: Seq<u8>, timestamp: Seq<u8>, body: Seq<u8>) -> Seq<
    u8,
> {
    message_id + timestamp + body
}

/// A signature header is valid when it is at least as long as the prefix and
/// what follows the prefix is the hex encoding of the expected tag.
pub open spec fn signature_valid(
    message_id: Seq<u8>,
    timestamp: Seq<u8>,
    body: Seq<u8>,
    signature: Seq<u8>,
    secret: Seq<u8>,
) -> bool {
    &&& signature.len() >= SIGNATURE_PREFIX_LEN
    &&& is_hex_text(signature.skip(SIGNATURE_PREFIX_LEN as int))
    &&& hex_bytes(signature.skip(SIGNATURE_PREFIX_LEN as int)) == hmac_sha256(
        secret,
        signed_message(message_id, timestamp, body),
    )
}

/// Relies on hex::decode: it fails on odd length or on a byte that is no hex
/// digit, and otherwise turns each pair of digits into one byte.
#[verifier::external_body]
fn decode_hex(text: &[u8]) -> (r: Option<Vec<u8>>)
    ensures
        r is Some <==> is_hex_text(text@),
        r is Some ==> r->Some_0@ == hex_bytes(text@),
{
    hex::decode(text).ok()
}

/// Relies on hmac's `Hmac<Sha256>` (`new_from_slice`, `update`,
/// `verify_slice`): true exactly when `tag` is the HMAC-SHA256 of `message`
/// under `key`, compared in constant time.
#[verifier::external_body]
fn hmac_sha256_matches(key: &[u8], message: &[u8], tag: &[u8]) -> (r: bool)
    ensures
        r == (tag@ == hmac_sha256(key@, message@)),
{
    match <Hmac<Sha256> as Mac>::new_from_slice(key) {
        Ok(mut mac) => {
            mac.update(message);
            mac.verify_slice(tag).is_ok()
        },
        Err(_) => false,
    }
}

/// Appends `bytes` to `out`.
fn append_bytes(out: &mut Vec<u8>, bytes: &[u8])
    ensures
        final(out)@ == old(out)@ + bytes@,
{
    let mut i: usize = 0;
    while i < bytes.len()
        invariant
            0 <= i <= bytes@.len(),
            out@ == old(out)@ + bytes@.subrange(0, i as int),
        decreases bytes@.len() - i,
    {
        out.push(bytes[i]);
        i = i + 1;
        assert(bytes@.subrange(0, i as int) == bytes@.subrange(0, (i - 1) as int).push(
            bytes@[i - 1],
        ));
    }
    assert(bytes@.subrange(0, bytes@.len() as int) == bytes@);
}

/// Whether a webhook message carries a valid signature. A header shorter
/// than the prefix is rejected before any decoding.
pub fn verify_signature(
    message_id: &[u8],
    timestamp: &[u8],
    body: &[u8],
    signature: &[u8],
    secret: &[u8],
) -> (r: bool)
    ensures
        r == signature_valid(message_id@, timestamp@, body@, signature@, secret@),
{
    if signature.len() < SIGNATURE_PREFIX_LEN {
        return false;
    }
    let mut digits: Vec<u8> = Vec::new();
    let mut i: usize = SIGNATURE_PREFIX_LEN;
    while i < signature.len()
        invariant
            SIGNATURE_PREFIX_LEN <= i <= signature@.len(),
            digits@ == signature@.subrange(SIGNATURE_PREFIX_LEN as int, i as int),
        decreases signature@.len() - i,
    {
        digits.push(signature[i]);
        i = i + 1;
        assert(signature@.subrange(SIGNATURE_PREFIX_LEN as int, i as int) == signature@.subrange(
            SIGNATURE_PREFIX_LEN as int,
            (i - 1) as int,
        ).push(signature@[i - 1]));
    }
    assert(digits@ == signature@.skip(SIGNATURE_PREFIX_LEN as int));
    let tag = match decode_hex(digits.as_slice()) {
        Some(t) => t,
        None => {
            return false;
        },
    };
    let mut message: Vec<u8> = Vec::new();
    append_bytes(&mut message, message_id);
    append_bytes(&mut message, timestamp);
    append_bytes(&mut message, body);
    assert(message@ == signed_message(message_id@, timestamp@, body@));
    hmac_sha256_matches(secret, message.as_slice(), tag.as_slice())
}

/// A header too short to hold the scheme prefix never passes.
pub proof fn lemma_short_signature_rejected(
    message_id: Seq<u8>,
    timestamp: Seq<u8>,
    body: Seq<u8>,
    signature: Seq<u8>,
    secret: Seq<u8>,
)
    requires
        signature.len() < SIGNATURE_PREFIX_LEN,
    ensures
        !signature_valid(message_id, timestamp, body, signature, secret),
{
}

} // verus!
