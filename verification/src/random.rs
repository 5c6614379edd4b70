//! Randomness: random bytes, and random (version 4) UUIDs as text.

use vstd::prelude::*;

use rand::RngCore;

verus! {

/// `s` is a UUID in hyphenated lower-case form, 8-4-4-4-12 hex digits, with
/// the version digit (the 15th character) equal to `4`.
pub open spec fn is_v4_uuid_text(s: Seq<char>) -> bool {
    &&& s.len() == 36
    &&& forall|i: int|
        0 <= i < 36 ==> {
            let c = #[trigger] s[i];
            if i == 8 || i == 13 || i == 18 || i == 23 {
                c == '-'
            } else {
                ('0' <= c && c <= '9') || ('a' <= c && c <= 'f')
            }
        }
    &&& s[14] == '4'
}

/// `rand::thread_rng().fill_bytes` on a buffer of `n` zero bytes. What the
/// bytes are is chance; only their number is stated.
#[verifier::external_body]
pub(crate) fn random_bytes(n: usize) -> (b: Vec<u8>)
    ensures
        b@.len() == n,
{
    let mut buf = vec![0u8; n];
    rand::thread_rng().fill_bytes(&mut buf);
    buf
}

/// `uuid::Uuid::new_v4().to_string()`: a random version-4 UUID, formatted
/// (by `Display`, which is `LowerHex`) as hyphenated lower-case hex. Which
/// UUID comes out is chance; only its form is stated.
#[verifier::external_body]
pub(crate) fn new_v4_uuid_text() -> (s: String)
    ensures
        is_v4_uuid_text(s@),
{
    uuid::Uuid::new_v4().to_string()
}

} // verus!
