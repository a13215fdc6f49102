//! Webhook authentication: HMAC-SHA256 over the exact raw request bytes,
//! compared against the hex digest carried by the signature header.

use vstd::prelude::*;
use crate::errors::SignatureError;
use crate::hexcode::{hex_decode, hex_decode_spec, hex_encode_spec, hex_ok, lemma_hex_round_trip};
use crate::strutil::str_eq;

verus! {

/// The HMAC-SHA256 tag of `data` under `key`: a fixed function of the two
/// byte strings, computed by an outside crate and therefore left without a
/// definition here.
pub uninterp spec fn hmac_sha256_of(key: Seq<u8>, data: Seq<u8>) -> Seq<u8>;

/// Relies on `ring::hmac::verify` with `ring::hmac::HMAC_SHA256` (and
/// `ring::hmac::Key::new` to shape the key): it computes the HMAC-SHA256 of
/// `data` under `secret` and succeeds exactly when the result equals `tag`,
/// in constant time. The length bounds keep both inputs far below the
/// hash's input limit, under which `Key::new` would panic.
#[verifier::external_body]
fn hmac_verify(secret: &[u8], data: &[u8], tag: &Vec<u8>) -> (r: bool)
    requires
        secret@.len() <= 0xffff_ffff,
        data@.len() <= 0xffff_ffff,
    ensures
        r == (tag@ == hmac_sha256_of(secret@, data@)),
{
    let key = ring::hmac::Key::new(ring::hmac::HMAC_SHA256, secret);
    ring::hmac::verify(&key, data, tag.as_slice()).is_ok()
}

/// Whether the signature header `header` authenticates `body` under
/// `secret`: it must start with `sha256=`, and the rest must be a
/// well-formed hexadecimal string denoting exactly the HMAC-SHA256 tag of
/// the body under the secret.
pub open spec fn signature_accepted(header: Seq<char>, secret: Seq<u8>, body: Seq<u8>) -> bool {
    &&& header.len() >= 7
    &&& header.subrange(0, 7) == "sha256="@
    &&& hex_ok(header.skip(7))
    &&& hex_decode_spec(header.skip(7)) == hmac_sha256_of(secret, body)
}

/// Checks that the signature header is valid: succeeds exactly when the
/// header is `sha256=` followed by the hex HMAC-SHA256 of the raw body
/// under the secret; a missing prefix, an undecodable digest or a tag
/// mismatch is a [`SignatureError`]. The body is taken as the exact bytes
/// received, before any parsing.
pub fn verify_signature(raw_body: &[u8], raw_signature: &str, secret: &[u8]) -> (r: Result<
    (),
    SignatureError,
>)
    requires
        secret@.len() <= 0xffff_ffff,
        raw_body@.len() <= 0xffff_ffff,
    ensures
        r is Ok <==> signature_accepted(raw_signature@, secret@, raw_body@),
{
    let n = raw_signature.unicode_len();
    if n < 7 {
        return Err(SignatureError);
    }
    let prefix = raw_signature.substring_char(0, 7);
    if !str_eq(prefix, "sha256=") {
        return Err(SignatureError);
    }
    let digest = raw_signature.substring_char(7, n);
    assert(digest@ =~= raw_signature@.skip(7));
    match hex_decode(digest) {
        None => Err(SignatureError),
        Some(tag) => {
            if hmac_verify(secret, raw_body, &tag) {
                Ok(())
            } else {
                Err(SignatureError)
            }
        },
    }
}

/// The correctly formed header is accepted: for any secret and body, the
/// header made of `sha256=` followed by the lower-case hex rendering of the
/// body's HMAC-SHA256 tag under the secret satisfies exactly the acceptance
/// predicate of [`verify_signature`].
pub proof fn lemma_signature_accepts_correct_header(secret: Seq<u8>, body: Seq<u8>)
    ensures
        signature_accepted(
            "sha256="@ + hex_encode_spec(hmac_sha256_of(secret, body)),
            secret,
            body,
        ),
{
    let digest = hex_encode_spec(hmac_sha256_of(secret, body));
    let header = "sha256="@ + digest;
    reveal_strlit("sha256=");
    lemma_hex_round_trip(hmac_sha256_of(secret, body));
    assert(header.subrange(0, 7) =~= "sha256="@);
    assert(header.skip(7) =~= digest);
}

/// A header that differs in the digest is refused: if the hex-decoded
/// digest is not the body's tag under the secret, the acceptance predicate
/// is false.
pub proof fn lemma_signature_refuses_wrong_digest(
    digest: Seq<char>,
    secret: Seq<u8>,
    body: Seq<u8>,
)
    requires
        !hex_ok(digest) || hex_decode_spec(digest) != hmac_sha256_of(secret, body),
    ensures
        !signature_accepted("sha256="@ + digest, secret, body),
{
    let header = "sha256="@ + digest;
    reveal_strlit("sha256=");
    assert(header.skip(7) =~= digest);
}

} // verus!
