//! The standard Base64 alphabet (RFC 4648, with `=` padding), stated as a spec
//! function, and the calls into the `base64` crate and std that encode, decode
//! and check UTF-8.
use base64::Engine;
use vstd::prelude::*;
use vstd::utf8::*;

verus! {

/// The symbol of the standard alphabet for a 6-bit value.
pub open spec fn base64_symbol(v: int) -> char
    recommends
        0 <= v < 64,
{
    if v < 26 {
        ((65 + v) as u8) as char
    } else if v < 52 {
        ((97 + (v - 26)) as u8) as char
    } else if v < 62 {
        ((48 + (v - 52)) as u8) as char
    } else if v == 62 {
        '+'
    } else {
        '/'
    }
}

/// The standard Base64 encoding of `b`: each group of three bytes becomes four
/// symbols, and a final group of one or two bytes is padded with `=` to four.
pub open spec fn base64_encode(b: Seq<u8>) -> Seq<char>
    decreases b.len(),
{
    let b0 = b[0] as int;
    let b1 = b[1] as int;
    let b2 = b[2] as int;
    if b.len() == 0 {
        seq![]
    } else if b.len() == 1 {
        seq![
            base64_symbol(b0 / 4),
            base64_symbol((b0 % 4) * 16),
            '=',
            '=',
        ]
    } else if b.len() == 2 {
        seq![
            base64_symbol(b0 / 4),
            base64_symbol((b0 % 4) * 16 + b1 / 16),
            base64_symbol((b1 % 16) * 4),
            '=',
        ]
    } else {
        seq![
            base64_symbol(b0 / 4),
            base64_symbol((b0 % 4) * 16 + b1 / 16),
            base64_symbol((b1 % 16) * 4 + b2 / 64),
            base64_symbol(b2 % 64),
        ] + base64_encode(b.subrange(3, b.len() as int))
    }
}

/// Distinct 6-bit values have distinct symbols, and none is the padding `=`.
pub proof fn lemma_symbol_injective(v: int, w: int)
    requires
        0 <= v < 64,
        0 <= w < 64,
    ensures
        base64_symbol(v) != '=',
        base64_symbol(v) == base64_symbol(w) ==> v == w,
{
}

/// The four symbols of a group of three bytes determine the bytes.
proof fn lemma_group_injective(a0: int, a1: int, a2: int, c0: int, c1: int, c2: int)
    requires
        0 <= a0 < 256,
        0 <= a1 < 256,
        0 <= a2 < 256,
        0 <= c0 < 256,
        0 <= c1 < 256,
        0 <= c2 < 256,
        a0 / 4 == c0 / 4,
        (a0 % 4) * 16 + a1 / 16 == (c0 % 4) * 16 + c1 / 16,
        (a1 % 16) * 4 + a2 / 64 == (c1 % 16) * 4 + c2 / 64,
        a2 % 64 == c2 % 64,
    ensures
        a0 == c0,
        a1 == c1,
        a2 == c2,
{
}

/// Distinct byte strings have distinct encodings.
pub proof fn lemma_base64_injective(a: Seq<u8>, b: Seq<u8>)
    requires
        base64_encode(a) == base64_encode(b),
    ensures
        a == b,
    decreases a.len(),
{
    let e = base64_encode(a);
    if a.len() == 0 || b.len() == 0 {
        assert(a.len() == 0 && b.len() == 0) by {
            if a.len() != 0 {
                assert(e.len() >= 4);
            }
            if b.len() != 0 {
                assert(base64_encode(b).len() >= 4);
            }
        }
        assert(a =~= b);
    } else {
        let f = base64_encode(b);
        let a0 = a[0] as int;
        let c0 = b[0] as int;
        let a1 = if a.len() >= 2 { a[1] as int } else { 0 };
        let a2 = if a.len() >= 3 { a[2] as int } else { 0 };
        let c1 = if b.len() >= 2 { b[1] as int } else { 0 };
        let c2 = if b.len() >= 3 { b[2] as int } else { 0 };
        assert(e[0] == base64_symbol(a0 / 4));
        assert(f[0] == base64_symbol(c0 / 4));
        assert(e[1] == base64_symbol((a0 % 4) * 16 + a1 / 16));
        assert(f[1] == base64_symbol((c0 % 4) * 16 + c1 / 16));
        lemma_symbol_injective(a0 / 4, c0 / 4);
        lemma_symbol_injective((a0 % 4) * 16 + a1 / 16, (c0 % 4) * 16 + c1 / 16);
        lemma_symbol_injective((a1 % 16) * 4 + a2 / 64, (c1 % 16) * 4 + c2 / 64);
        lemma_symbol_injective(a2 % 64, c2 % 64);
        assert(e[2] == '=' <==> a.len() == 1);
        assert(e[3] == '=' <==> a.len() <= 2);
        assert(f[2] == '=' <==> b.len() == 1);
        assert(f[3] == '=' <==> b.len() <= 2);
        if a.len() >= 2 {
            assert(e[2] == base64_symbol((a1 % 16) * 4 + a2 / 64));
            assert(f[2] == base64_symbol((c1 % 16) * 4 + c2 / 64));
        }
        if a.len() >= 3 {
            assert(e[3] == base64_symbol(a2 % 64));
            assert(f[3] == base64_symbol(c2 % 64));
        }
        lemma_group_injective(a0, a1, a2, c0, c1, c2);
        if a.len() >= 3 {
            let ra = a.subrange(3, a.len() as int);
            let rb = b.subrange(3, b.len() as int);
            assert(base64_encode(ra) =~= e.subrange(4, e.len() as int));
            assert(base64_encode(rb) =~= e.subrange(4, e.len() as int));
            lemma_base64_injective(ra, rb);
            assert(a =~= a.subrange(0, 3) + ra);
            assert(b =~= b.subrange(0, 3) + rb);
            assert(a.subrange(0, 3) =~= b.subrange(0, 3));
        } else {
            assert(a =~= b);
        }
    }
}

/// Whether the Base64 text of `plain` fits in memory: its UTF-8 bytes, and so
/// the four symbols for every three of them, stay within `isize::MAX`.
pub open spec fn encodable(plain: Seq<char>) -> bool {
    encode_utf8(plain).len() <= isize::MAX / 4 * 3
}

#[verifier::external_type_specification]
#[verifier::external_body]
pub struct ExDecodeError(base64::DecodeError);

/// Relies on `base64::Engine::encode` with `general_purpose::STANDARD`: the
/// padded standard encoding of the UTF-8 bytes of `s`. It panics when the
/// output, four bytes for every three started, does not fit in a `Vec`.
#[verifier::external_body]
pub(crate) fn encode_standard(s: &str) -> (r: String)
    requires
        encodable(s@),
    ensures
        r@ == base64_encode(encode_utf8(s@)),
{
    base64::engine::general_purpose::STANDARD.encode(s)
}

/// Relies on `base64::Engine::decode` with `general_purpose::STANDARD`, whose
/// configuration requires canonical padding and rejects non-zero trailing bits:
/// it accepts exactly the strings that are the encoding of some bytes, and
/// returns those bytes.
#[verifier::external_body]
pub(crate) fn decode_standard(s: &str) -> (r: Result<Vec<u8>, base64::DecodeError>)
    ensures
        forall|b: Seq<u8>|
            #![trigger base64_encode(b)]
            base64_encode(b) == s@ <==> (r matches Ok(d) && d@ == b),
{
    base64::engine::general_purpose::STANDARD.decode(s)
}

/// Relies on `String::from_utf8`: it succeeds exactly on valid UTF-8, and the
/// string it returns has those bytes.
#[verifier::external_body]
pub(crate) fn string_from_utf8(b: Vec<u8>) -> (r: Option<String>)
    ensures
        r is Some <==> valid_utf8(b@),
        r matches Some(s) ==> encode_utf8(s@) == b@,
{
    String::from_utf8(b).ok()
}

} // verus!
