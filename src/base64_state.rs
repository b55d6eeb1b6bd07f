//! The codec state: the last plain text, its Base64 text, and whether the last
//! decode failed.
use crate::codec::{
    base64_encode, decode_standard, encodable, encode_standard, lemma_base64_injective,
    string_from_utf8,
};
use vstd::prelude::*;
use vstd::utf8::*;

verus! {

broadcast use group_utf8_lib;

/// The Base64 text of a plain text: the padded standard encoding of its UTF-8 bytes.
pub open spec fn cipher_of(plain: Seq<char>) -> Seq<char> {
    base64_encode(encode_utf8(plain))
}

/// Whether `cipher` is the Base64 text of some plain text.
pub open spec fn is_cipher_of_text(cipher: Seq<char>) -> bool {
    exists|p: Seq<char>| cipher_of(p) == cipher
}

/// The plain text whose Base64 text is `cipher`, where there is one.
pub open spec fn plain_of(cipher: Seq<char>) -> Seq<char>
    recommends
        is_cipher_of_text(cipher),
{
    choose|p: Seq<char>| cipher_of(p) == cipher
}

pub struct Base64State {
    pub plain_text: String,
    pub cipher_text: String,
    pub invalid_base64: bool,
}

impl Base64State {
    /// The state after `decode(cipher)` from `self`: on a valid Base64 text of
    /// some plain text that text is taken; otherwise the plain text is kept and
    /// the state is marked invalid.
    pub open spec fn decoded_from(self, cipher: Seq<char>) -> (Seq<char>, Seq<char>, bool) {
        if is_cipher_of_text(cipher) {
            (plain_of(cipher), cipher, false)
        } else {
            (self.plain_text@, cipher, true)
        }
    }

    /// The plain text, the cipher text and the invalid flag.
    pub open spec fn model(self) -> (Seq<char>, Seq<char>, bool) {
        (self.plain_text@, self.cipher_text@, self.invalid_base64)
    }

    pub fn new() -> (r: Self)
        ensures
            r.plain_text@ == Seq::<char>::empty(),
            r.cipher_text@ == Seq::<char>::empty(),
            !r.invalid_base64,
    {
        Base64State { plain_text: String::new(), cipher_text: String::new(), invalid_base64: false }
    }

    /// Takes `plain_text` as the plain text and its Base64 text as the cipher
    /// text. Encoding never fails.
    pub fn encode(&mut self, plain_text: &str)
        requires
            encodable(plain_text@),
        ensures
            final(self).plain_text@ == plain_text@,
            final(self).cipher_text@ == cipher_of(plain_text@),
            !final(self).invalid_base64,
    {
        self.plain_text = plain_text.to_owned();
        self.cipher_text = encode_standard(plain_text);
        self.invalid_base64 = false;
    }

    /// Takes `cipher_text` as the cipher text. Where it is the Base64 text of
    /// some plain text, that text becomes the plain text; otherwise the last good
    /// plain text stays and the state is marked invalid.
    pub fn decode(&mut self, cipher_text: &str)
        ensures
            final(self).model() == old(self).decoded_from(cipher_text@),
    {
        self.cipher_text = cipher_text.to_owned();
        match decode_standard(cipher_text) {
            Ok(decoded_bytes) => {
                let ghost bytes = decoded_bytes@;
                match string_from_utf8(decoded_bytes) {
                    Some(decoded_string) => {
                        proof {
                            assert(base64_encode(bytes) == cipher_text@);
                            assert(cipher_of(decoded_string@) == cipher_text@);
                            let q = plain_of(cipher_text@);
                            assert(base64_encode(encode_utf8(q)) == cipher_text@);
                            lemma_cipher_determines_plain(decoded_string@, q);
                        }
                        self.plain_text = decoded_string;
                        self.invalid_base64 = false;
                    },
                    None => {
                        assert(!is_cipher_of_text(cipher_text@)) by {
                            if is_cipher_of_text(cipher_text@) {
                                let p = plain_of(cipher_text@);
                                assert(base64_encode(encode_utf8(p)) == cipher_text@);
                                assert(valid_utf8(encode_utf8(p)));
                            }
                        }
                        self.invalid_base64 = true;
                    },
                }
            },
            Err(_e) => {
                assert(!is_cipher_of_text(cipher_text@)) by {
                    if is_cipher_of_text(cipher_text@) {
                        let p = plain_of(cipher_text@);
                        assert(base64_encode(encode_utf8(p)) == cipher_text@);
                    }
                }
                self.invalid_base64 = true;
            },
        }
    }

    pub fn reset(&mut self)
        ensures
            final(self).plain_text@ == Seq::<char>::empty(),
            final(self).cipher_text@ == Seq::<char>::empty(),
            !final(self).invalid_base64,
    {
        self.plain_text = String::new();
        self.cipher_text = String::new();
        self.invalid_base64 = false;
    }
}

/// Decoding the Base64 text of any plain text `p`, from any state, gives back
/// `p` and a valid state.
pub proof fn lemma_decode_of_encode(st: Base64State, p: Seq<char>)
    ensures
        st.decoded_from(cipher_of(p)) == (p, cipher_of(p), false),
{
    let c = cipher_of(p);
    assert(is_cipher_of_text(c));
    let q = plain_of(c);
    assert(cipher_of(q) == c);
    lemma_encoding_determines_plain(p, q);
}

/// Encoding the plain text that a valid Base64 text `c` decodes to gives `c`
/// back.
pub proof fn lemma_encode_of_decode(st: Base64State, c: Seq<char>)
    requires
        is_cipher_of_text(c),
    ensures
        cipher_of(st.decoded_from(c).0) == c,
        !st.decoded_from(c).2,
{
}

/// Decoding the same text twice leaves the state that decoding it once left.
pub proof fn lemma_decode_idempotent(st: Base64State, once: Base64State, c: Seq<char>)
    requires
        once.model() == st.decoded_from(c),
    ensures
        once.decoded_from(c) == st.decoded_from(c),
{
}

/// Two plain texts with the same Base64 text are the same text.
proof fn lemma_encoding_determines_plain(p: Seq<char>, q: Seq<char>)
    requires
        cipher_of(p) == cipher_of(q),
    ensures
        p == q,
{
    lemma_base64_injective(encode_utf8(p), encode_utf8(q));
    lemma_cipher_determines_plain(p, q);
}

/// Two plain texts with the same UTF-8 bytes are the same text.
proof fn lemma_cipher_determines_plain(p: Seq<char>, q: Seq<char>)
    requires
        encode_utf8(p) == encode_utf8(q),
    ensures
        p == q,
{
    assert(decode_utf8(encode_utf8(p)) == p);
    assert(decode_utf8(encode_utf8(q)) == q);
}

} // verus!
