use vstd::prelude::*;

verus! {

/// What SASLprep (RFC 4013) makes of a string; `None` where it refuses it.
pub uninterp spec fn saslprep_of(s: Seq<char>) -> Option<Seq<char>>;

/// The MD5 digest of a byte string.
pub uninterp spec fn md5_of(data: Seq<u8>) -> Seq<u8>;

/// The HMAC-SHA1 of a message under a key.
pub uninterp spec fn hmac_sha1_of(key: Seq<u8>, message: Seq<u8>) -> Seq<u8>;

/// Relies on stringprep::saslprep: it either prepares the string or refuses
/// it, and the outcome depends on the characters alone.
#[verifier::external_body]
pub(crate) fn saslprep(s: &str) -> (r: Option<String>)
    ensures
        r is Some <==> saslprep_of(s@) is Some,
        r is Some ==> r->Some_0@ == saslprep_of(s@)->Some_0,
{
    match stringprep::saslprep(s) {
        Ok(p) => Some(p.into_owned()),
        Err(_) => None,
    }
}

/// Relies on md5::compute: the 16-byte digest of the input bytes.
#[verifier::external_body]
pub(crate) fn md5_digest(data: &[u8]) -> (r: [u8; 16])
    ensures
        r@ == md5_of(data@),
{
    md5::compute(data).0
}

/// Relies on hmac_sha1::hmac_sha1: the 20-byte HMAC-SHA1 of `message` under
/// `key`, for keys of any length.
#[verifier::external_body]
pub(crate) fn hmac_sha1(key: &[u8], message: &[u8]) -> (r: [u8; 20])
    ensures
        r@ == hmac_sha1_of(key@, message@),
{
    hmac_sha1::hmac_sha1(key, message)
}

/// Relies on String::from_utf8: it accepts exactly the valid UTF-8 byte
/// strings, and then holds the characters they encode.
#[verifier::external_body]
pub(crate) fn string_from_utf8(bytes: Vec<u8>) -> (r: Option<String>)
    ensures
        r is Some <==> vstd::utf8::valid_utf8(bytes@),
        r is Some ==> r->Some_0@ == vstd::utf8::decode_utf8(bytes@),
{
    match String::from_utf8(bytes) {
        Ok(s) => Some(s),
        Err(_) => None,
    }
}

/// Relies on rand::random: twelve bytes from the thread-local generator,
/// which is seeded from the operating system.
#[verifier::external_body]
pub(crate) fn random_transaction_id() -> (r: [u8; 12]) {
    rand::random::<[u8; 12]>()
}

} // verus!
