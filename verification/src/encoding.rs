//! Byte-to-text encodings: URL-safe base64 without padding, and lower-case hex.

use vstd::prelude::*;

use base64::Engine;

verus! {

/// The character that stands for the six-bit value `v` in the URL-safe
/// base64 alphabet of RFC 4648 section 5.
pub open spec fn b64url_char(v: int) -> char {
    if v < 26 {
        ((65 + v) as u8) as char
    } else if v < 52 {
        ((97 + (v - 26)) as u8) as char
    } else if v < 62 {
        ((48 + (v - 52)) as u8) as char
    } else if v == 62 {
        '-'
    } else {
        '_'
    }
}

/// URL-safe base64 of `b`, without `=` padding: every three bytes become four
/// characters, and a final one or two bytes become two or three characters.
pub open spec fn b64url_encode(b: Seq<u8>) -> Seq<char>
    decreases b.len(),
{
    if b.len() == 0 {
        Seq::empty()
    } else if b.len() == 1 {
        seq![b64url_char((b[0] as int) / 4), b64url_char(((b[0] as int) % 4) * 16)]
    } else if b.len() == 2 {
        seq![
            b64url_char((b[0] as int) / 4),
            b64url_char(((b[0] as int) % 4) * 16 + (b[1] as int) / 16),
            b64url_char(((b[1] as int) % 16) * 4),
        ]
    } else {
        seq![
            b64url_char((b[0] as int) / 4),
            b64url_char(((b[0] as int) % 4) * 16 + (b[1] as int) / 16),
            b64url_char(((b[1] as int) % 16) * 4 + (b[2] as int) / 64),
            b64url_char((b[2] as int) % 64),
        ] + b64url_encode(b.skip(3))
    }
}

/// `s` is the URL-safe unpadded base64 text of some byte string.
pub open spec fn is_b64url(s: Seq<char>) -> bool {
    exists|b: Seq<u8>| #[trigger] b64url_encode(b) == s
}

/// The length of the encoding of `n` bytes.
pub open spec fn b64url_len(n: nat) -> nat {
    4 * (n / 3) + if n % 3 == 0 {
        0nat
    } else if n % 3 == 1 {
        2nat
    } else {
        3nat
    }
}

/// `c` belongs to the URL-safe base64 alphabet: `A`-`Z`, `a`-`z`, `0`-`9`,
/// `-` and `_`.
pub open spec fn is_b64url_alphabet(c: char) -> bool {
    ||| ('A' <= c && c <= 'Z')
    ||| ('a' <= c && c <= 'z')
    ||| ('0' <= c && c <= '9')
    ||| c == '-'
    ||| c == '_'
}

/// Every character of `s` is in the URL-safe base64 alphabet.
pub open spec fn all_b64url_alphabet(s: Seq<char>) -> bool {
    forall|i: int| 0 <= i < s.len() ==> is_b64url_alphabet(#[trigger] s[i])
}

proof fn lemma_b64url_char_in_alphabet(v: int)
    requires
        0 <= v < 64,
    ensures
        is_b64url_alphabet(b64url_char(v)),
{
}

/// An encoding holds only characters of the URL-safe alphabet: no `+`, `/`,
/// `=`, separator or space, so it can stand as a cookie value as it is.
pub proof fn lemma_b64url_alphabet(b: Seq<u8>)
    ensures
        all_b64url_alphabet(b64url_encode(b)),
    decreases b.len(),
{
    let e = b64url_encode(b);
    if b.len() == 0 {
    } else if b.len() < 3 {
        let b0 = b[0] as int;
        lemma_b64url_char_in_alphabet(b0 / 4);
        if b.len() == 1 {
            lemma_b64url_char_in_alphabet((b0 % 4) * 16);
        } else {
            let b1 = b[1] as int;
            lemma_b64url_char_in_alphabet((b0 % 4) * 16 + b1 / 16);
            lemma_b64url_char_in_alphabet((b1 % 16) * 4);
        }
    } else {
        let b0 = b[0] as int;
        let b1 = b[1] as int;
        let b2 = b[2] as int;
        let head = seq![
            b64url_char(b0 / 4),
            b64url_char((b0 % 4) * 16 + b1 / 16),
            b64url_char((b1 % 16) * 4 + b2 / 64),
            b64url_char(b2 % 64),
        ];
        lemma_b64url_char_in_alphabet(b0 / 4);
        lemma_b64url_char_in_alphabet((b0 % 4) * 16 + b1 / 16);
        lemma_b64url_char_in_alphabet((b1 % 16) * 4 + b2 / 64);
        lemma_b64url_char_in_alphabet(b2 % 64);
        lemma_b64url_alphabet(b.skip(3));
        let tail = b64url_encode(b.skip(3));
        assert(e == head + tail);
        assert forall|i: int| 0 <= i < e.len() implies is_b64url_alphabet(#[trigger] e[i]) by {
            if i >= 4 {
                assert(e[i] == tail[i - 4]);
            }
        }
    }
}

/// The character `b64url_char(v)` determines `v`.
proof fn lemma_b64url_char_injective(v: int, w: int)
    requires
        0 <= v < 64,
        0 <= w < 64,
        b64url_char(v) == b64url_char(w),
    ensures
        v == w,
{
    if v < 26 && w < 26 {
        assert((65 + v) as u8 == (65 + w) as u8);
    } else if 26 <= v < 52 && 26 <= w < 52 {
        assert((97 + (v - 26)) as u8 == (97 + (w - 26)) as u8);
    } else if 52 <= v < 62 && 52 <= w < 62 {
        assert((48 + (v - 52)) as u8 == (48 + (w - 52)) as u8);
    } else {
        let cv = b64url_char(v);
        let cw = b64url_char(w);
        assert(cv as u32 == cw as u32);
    }
}

/// The encoding has the length that `b64url_len` gives.
pub proof fn lemma_b64url_len(b: Seq<u8>)
    ensures
        b64url_encode(b).len() == b64url_len(b.len()),
    decreases b.len(),
{
    if b.len() >= 3 {
        lemma_b64url_len(b.skip(3));
    }
}

/// Two byte strings with the same encoding are equal.
pub proof fn lemma_b64url_injective(a: Seq<u8>, b: Seq<u8>)
    requires
        b64url_encode(a) == b64url_encode(b),
    ensures
        a == b,
    decreases a.len(), 1int,
{
    lemma_b64url_len(a);
    lemma_b64url_len(b);
    let ea = b64url_encode(a);
    let eb = b64url_encode(b);
    assert(a.len() == b.len()) by {
        assert(b64url_len(a.len()) == b64url_len(b.len()));
    }
    if a.len() == 0 {
        assert(a =~= b);
    } else {
        lemma_b64url_injective_nonempty(a, b);
    }
}

/// The non-empty case of `lemma_b64url_injective`, one group at a time.
proof fn lemma_b64url_injective_nonempty(a: Seq<u8>, b: Seq<u8>)
    requires
        b64url_encode(a) == b64url_encode(b),
        a.len() == b.len(),
        a.len() > 0,
    ensures
        a == b,
    decreases a.len(), 0int,
{
    let ea = b64url_encode(a);
    let eb = b64url_encode(b);
    let a0 = a[0] as int;
    let b0 = b[0] as int;
    if a.len() == 1 {
        assert(ea[0] == eb[0] && ea[1] == eb[1]);
        lemma_b64url_char_injective(a0 / 4, b0 / 4);
        lemma_b64url_char_injective((a0 % 4) * 16, (b0 % 4) * 16);
        assert(a =~= b);
    } else if a.len() == 2 {
        let a1 = a[1] as int;
        let b1 = b[1] as int;
        assert(ea[0] == eb[0] && ea[1] == eb[1] && ea[2] == eb[2]);
        lemma_b64url_char_injective(a0 / 4, b0 / 4);
        lemma_b64url_char_injective((a0 % 4) * 16 + a1 / 16, (b0 % 4) * 16 + b1 / 16);
        lemma_b64url_char_injective((a1 % 16) * 4, (b1 % 16) * 4);
        assert(a =~= b);
    } else {
        let a1 = a[1] as int;
        let b1 = b[1] as int;
        let a2 = a[2] as int;
        let b2 = b[2] as int;
        let ha = seq![
            b64url_char(a0 / 4),
            b64url_char((a0 % 4) * 16 + a1 / 16),
            b64url_char((a1 % 16) * 4 + a2 / 64),
            b64url_char(a2 % 64),
        ];
        let hb = seq![
            b64url_char(b0 / 4),
            b64url_char((b0 % 4) * 16 + b1 / 16),
            b64url_char((b1 % 16) * 4 + b2 / 64),
            b64url_char(b2 % 64),
        ];
        assert(ea == ha + b64url_encode(a.skip(3)));
        assert(eb == hb + b64url_encode(b.skip(3)));
        assert(ea[0] == ha[0] && ea[1] == ha[1] && ea[2] == ha[2] && ea[3] == ha[3]);
        assert(eb[0] == hb[0] && eb[1] == hb[1] && eb[2] == hb[2] && eb[3] == hb[3]);
        lemma_b64url_char_injective(a0 / 4, b0 / 4);
        lemma_b64url_char_injective((a0 % 4) * 16 + a1 / 16, (b0 % 4) * 16 + b1 / 16);
        lemma_b64url_char_injective((a1 % 16) * 4 + a2 / 64, (b1 % 16) * 4 + b2 / 64);
        lemma_b64url_char_injective(a2 % 64, b2 % 64);
        assert(b64url_encode(a.skip(3)) =~= ea.skip(4));
        assert(b64url_encode(b.skip(3)) =~= eb.skip(4));
        lemma_b64url_injective(a.skip(3), b.skip(3));
        assert(a =~= a.take(3) + a.skip(3));
        assert(b =~= b.take(3) + b.skip(3));
        assert(a.take(3) =~= b.take(3));
    }
}

/// `base64::DecodeError`, carried through unread.
#[verifier::external_type_specification]
#[verifier::external_body]
pub struct ExDecodeError(base64::DecodeError);

/// `base64::engine::general_purpose::URL_SAFE_NO_PAD.encode`: the RFC 4648
/// URL-safe alphabet, no padding. It panics only when the output length
/// (`b64url_len`) overflows `usize`, which `requires` rules out.
#[verifier::external_body]
fn b64url_encode_bytes(bytes: &[u8]) -> (s: String)
    requires
        b64url_len(bytes@.len()) <= usize::MAX,
    ensures
        s@ == b64url_encode(bytes@),
{
    base64::engine::general_purpose::URL_SAFE_NO_PAD.encode(bytes)
}

/// `URL_SAFE_NO_PAD.decode`: this engine rejects padding and non-zero
/// trailing bits, so it accepts exactly the texts that its `encode` produces,
/// and gives back the bytes they encode.
#[verifier::external_body]
fn b64url_decode_text(text: &str) -> (r: Result<Vec<u8>, base64::DecodeError>)
    ensures
        r matches Ok(b) ==> b64url_encode(b@) == text@,
        r is Err ==> !is_b64url(text@),
{
    base64::engine::general_purpose::URL_SAFE_NO_PAD.decode(text)
}

/// Encodes bytes as URL-safe base64 without padding.
pub fn encode_b64url(bytes: &[u8]) -> (s: String)
    requires
        b64url_len(bytes@.len()) <= usize::MAX,
    ensures
        s@ == b64url_encode(bytes@),
        all_b64url_alphabet(s@),
{
    proof {
        lemma_b64url_alphabet(bytes@);
    }
    b64url_encode_bytes(bytes)
}

/// Decodes URL-safe unpadded base64; `None` exactly when `text` is not the
/// encoding of any byte string.
pub fn decode_b64url(text: &str) -> (r: Option<Vec<u8>>)
    ensures
        r is Some <==> is_b64url(text@),
        r matches Some(b) ==> b64url_encode(b@) == text@,
{
    match b64url_decode_text(text) {
        Ok(b) => Some(b),
        Err(_) => None,
    }
}

/// Decoding is the inverse of encoding: every encoding is accepted, and
/// what decodes to the same text as `b` is `b`. So whatever the login step
/// frames into the state cookie, the callback unframes unchanged.
pub proof fn lemma_b64url_roundtrip(b: Seq<u8>, decoded: Seq<u8>)
    requires
        b64url_encode(decoded) == b64url_encode(b),
    ensures
        is_b64url(b64url_encode(b)),
        decoded == b,
{
    lemma_b64url_injective(decoded, b);
}

/// The lower-case hex digit for the four-bit value `v`.
pub open spec fn hex_digit(v: int) -> char {
    if v < 10 {
        ((48 + v) as u8) as char
    } else {
        ((87 + v) as u8) as char
    }
}

/// Lower-case hex of `b`: two digits per byte, high nibble first.
pub open spec fn hex_lower(b: Seq<u8>) -> Seq<char> {
    Seq::new(
        2 * b.len(),
        |k: int|
            if k % 2 == 0 {
                hex_digit(b[k / 2] as int / 16)
            } else {
                hex_digit(b[k / 2] as int % 16)
            },
    )
}

/// `s` consists of lower-case hex digits only.
pub open spec fn is_lower_hex(s: Seq<char>) -> bool {
    forall|i: int| 0 <= i < s.len() ==> {
        let c = #[trigger] s[i];
        ('0' <= c && c <= '9') || ('a' <= c && c <= 'f')
    }
}

fn hex_digit_exec(v: u8) -> (c: char)
    requires
        v < 16,
    ensures
        c == hex_digit(v as int),
{
    if v < 10 {
        (48u8 + v) as char
    } else {
        (87u8 + v) as char
    }
}

/// Lower-case hex encoding of `bytes`.
pub fn encode_hex_lower(bytes: &[u8]) -> (s: String)
    ensures
        s@ == hex_lower(bytes@),
{
    let n = bytes.len();
    let mut out: Vec<char> = Vec::new();
    let mut i: usize = 0;
    while i < n
        invariant
            n == bytes@.len(),
            i <= n,
            out@ =~= hex_lower(bytes@.take(i as int)),
        decreases n - i,
    {
        let b = bytes[i];
        out.push(hex_digit_exec(b / 16));
        out.push(hex_digit_exec(b % 16));
        i = i + 1;
        assert(out@ =~= hex_lower(bytes@.take(i as int)));
    }
    assert(bytes@.take(n as int) =~= bytes@);
    crate::text::string_of(&out)
}

/// Every character of a hex encoding is a lower-case hex digit.
pub proof fn lemma_hex_lower_is_lower_hex(b: Seq<u8>)
    ensures
        is_lower_hex(hex_lower(b)),
        hex_lower(b).len() == 2 * b.len(),
{
    assert forall|i: int| 0 <= i < hex_lower(b).len() implies {
        let c = #[trigger] hex_lower(b)[i];
        ('0' <= c && c <= '9') || ('a' <= c && c <= 'f')
    } by {
        let v = if i % 2 == 0 { b[i / 2] as int / 16 } else { b[i / 2] as int % 16 };
        assert(0 <= v < 16);
    }
}

} // verus!
