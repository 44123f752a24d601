use vstd::prelude::*;
use vstd::utf8::{encode_utf8, is_ascii_chars, is_ascii_chars_encode_utf8};

verus! {

/// Whether an HTTP header value may hold the byte `b`: tab, or any byte
/// from the space upwards but DEL.
pub open spec fn header_byte_valid(b: u8) -> bool {
    b == 0x09 || (b >= 0x20 && b != 0x7f)
}

/// Whether `text`, sent as UTF-8, makes a valid HTTP header value.
pub open spec fn header_text_valid(text: Seq<char>) -> bool {
    forall|i: int| 0 <= i < encode_utf8(text).len() ==> header_byte_valid(#[trigger] encode_utf8(text)[i])
}

/// Calls `hyper::header::HeaderValue::from_str` (the `http` crate's
/// header value) and keeps whether it succeeded. Claimed: it succeeds
/// exactly where every byte of the value is tab or at least 0x20 and not 0x7f.
#[verifier::external_body]
pub(crate) fn header_value_accepted(value: &str) -> (ok: bool)
    ensures
        ok == header_text_valid(value@),
{
    hyper::header::HeaderValue::from_str(value).is_ok()
}

/// UTF-8 encodes a concatenation piece by piece.
pub proof fn lemma_encode_utf8_concat(a: Seq<char>, b: Seq<char>)
    ensures
        encode_utf8(a + b) == encode_utf8(a) + encode_utf8(b),
    decreases a.len(),
{
    if a.len() == 0 {
        assert(a + b =~= b);
        assert(encode_utf8(a) + encode_utf8(b) =~= encode_utf8(b));
    } else {
        assert((a + b).drop_first() =~= a.drop_first() + b);
        assert((a + b)[0] == a[0]);
        lemma_encode_utf8_concat(a.drop_first(), b);
        assert(encode_utf8(a + b) =~= encode_utf8(a) + encode_utf8(b));
    }
}

/// A header value that is a valid prefix followed by `text` is valid
/// exactly where `text` is.
pub proof fn lemma_valid_prefix(prefix: Seq<char>, text: Seq<char>)
    requires
        header_text_valid(prefix),
    ensures
        header_text_valid(prefix + text) == header_text_valid(text),
{
    lemma_encode_utf8_concat(prefix, text);
    let p = encode_utf8(prefix);
    let t = encode_utf8(text);
    let all = encode_utf8(prefix + text);
    assert(all == p + t);
    if header_text_valid(text) {
        assert forall|i: int| 0 <= i < all.len() implies header_byte_valid(#[trigger] all[i]) by {
            if i < p.len() {
                assert(all[i] == p[i]);
            } else {
                assert(all[i] == t[i - p.len()]);
            }
        }
    }
    if header_text_valid(prefix + text) {
        assert forall|i: int| 0 <= i < t.len() implies header_byte_valid(#[trigger] t[i]) by {
            assert(all[i + p.len()] == t[i]);
        }
    }
}

/// The prefix `Bearer ` of the authorization header is a valid header value.
pub proof fn lemma_bearer_prefix_valid()
    ensures
        header_text_valid("Bearer "@),
{
    reveal_strlit("Bearer ");
    let p = "Bearer "@;
    assert(is_ascii_chars(p));
    is_ascii_chars_encode_utf8(p);
    let e = encode_utf8(p);
    assert forall|i: int| 0 <= i < e.len() implies header_byte_valid(#[trigger] e[i]) by {
        assert(e[i] == p[i] as u8);
    }
}

} // verus!
