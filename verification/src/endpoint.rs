//! Construction of the chat-completions endpoint from a provider's configured base URL.

use vstd::prelude::*;
use crate::text::{
    chars_end_with, chars_of, ends_with, is_whitespace, lemma_trim_fixed, lemma_trim_idempotent,
    lemma_trim_shape, string_from_chars, trim, trim_chars,
};

verus! {

/// The endpoint for a base URL: the trimmed base itself when it already names the
/// chat-completions path, the path appended after a `/v1` base, and `v1/chat/completions`
/// appended (with a separating `/` where the base lacks a trailing one) otherwise.
pub open spec fn chat_endpoint(base: Seq<char>) -> Seq<char> {
    let b = trim(base);
    if ends_with(b, "/chat/completions"@) {
        b
    } else if ends_with(b, "/v1"@) {
        b + "/chat/completions"@
    } else if ends_with(b, "/"@) {
        b + "v1/chat/completions"@
    } else {
        b + "/v1/chat/completions"@
    }
}

/// The chat-completions endpoint for a configured base URL.
pub fn siliconflow_chat_endpoint(base: &str) -> (r: String)
    ensures
        r@ == chat_endpoint(base@),
{
    let b = trim_chars(&chars_of(base));
    let mut out = string_from_chars(&b);
    if chars_end_with(&b, &chars_of("/chat/completions")) {
        return out;
    }
    if chars_end_with(&b, &chars_of("/v1")) {
        out.append("/chat/completions");
        return out;
    }
    if chars_end_with(&b, &chars_of("/")) {
        out.append("v1/chat/completions");
        out
    } else {
        out.append("/v1/chat/completions");
        out
    }
}

/// A sequence ending with `x` still ends with every suffix of `x` after a prefix is added.
proof fn lemma_ends_with_concat(a: Seq<char>, x: Seq<char>, s: Seq<char>)
    requires
        ends_with(x, s),
    ensures
        ends_with(a + x, s),
{
    assert((a + x).skip((a + x).len() - s.len()) =~= x.skip(x.len() - s.len()));
}

/// Every endpoint ends with `/chat/completions`.
pub proof fn lemma_chat_endpoint_suffix(base: Seq<char>)
    ensures
        ends_with(chat_endpoint(base), "/chat/completions"@),
{
    reveal_strlit("/chat/completions");
    reveal_strlit("v1/chat/completions");
    reveal_strlit("/v1/chat/completions");
    let b = trim(base);
    let s = "/chat/completions"@;
    assert(ends_with(s, s)) by {
        assert(s.skip(0) =~= s);
    }
    assert(ends_with("v1/chat/completions"@, s)) by {
        assert("v1/chat/completions"@.skip(2) =~= s);
    }
    assert(ends_with("/v1/chat/completions"@, s)) by {
        assert("/v1/chat/completions"@.skip(3) =~= s);
    }
    lemma_ends_with_concat(b, s, s);
    lemma_ends_with_concat(b, "v1/chat/completions"@, s);
    lemma_ends_with_concat(b, "/v1/chat/completions"@, s);
}

/// Applying the endpoint construction to an endpoint gives it back unchanged.
pub proof fn lemma_chat_endpoint_idempotent(base: Seq<char>)
    ensures
        chat_endpoint(chat_endpoint(base)) == chat_endpoint(base),
{
    reveal_strlit("/chat/completions");
    reveal_strlit("v1/chat/completions");
    reveal_strlit("/v1/chat/completions");
    let b = trim(base);
    let e = chat_endpoint(base);
    lemma_trim_shape(base);
    lemma_trim_idempotent(base);
    lemma_chat_endpoint_suffix(base);
    if e != b {
        let x = e.skip(b.len() as int);
        assert(e =~= b + x);
        assert(x.len() > 0 && !is_whitespace(x[0]) && !is_whitespace(x.last()));
        if b.len() > 0 {
            assert(e[0] == b[0]);
        } else {
            assert(e[0] == x[0]);
        }
        assert(e.last() == x.last());
        lemma_trim_fixed(e);
    }
    assert(trim(e) == e);
}

} // verus!
