//! Reading the host out of an origin URL.
use crate::text::{
    chars_of, find_char, find_char_index, find_seq, find_seq_index, lemma_find_char, lemma_find_seq,
    string_of, string_of_range, sub_chars,
};
use vstd::prelude::*;

verus! {

/// The separator between a URL's scheme and the rest: `://`.
pub open spec fn scheme_separator() -> Seq<char> {
    seq![':', '/', '/']
}

/// `url` without everything up to and including its first `://`; `url`
/// itself where it has none.
pub open spec fn spec_remove_protocol(url: Seq<char>) -> Seq<char> {
    match find_seq(url, scheme_separator()) {
        Some(i) => url.skip(i + 3),
        None => url,
    }
}

/// The host of `url`: what follows the scheme, up to the first `/`.
pub open spec fn spec_host_from_url(url: Seq<char>) -> Seq<char> {
    let rest = spec_remove_protocol(url);
    match find_char(rest, '/') {
        Some(i) => rest.take(i),
        None => rest,
    }
}

pub fn scheme_separator_chars() -> (r: Vec<char>)
    ensures
        r@ == scheme_separator(),
{
    let r = vec![':', '/', '/'];
    assert(r@ == scheme_separator());
    r
}

fn remove_protocol_chars(cs: &Vec<char>) -> (r: Vec<char>)
    ensures
        r@ == spec_remove_protocol(cs@),
{
    let sep = scheme_separator_chars();
    match find_seq_index(cs, &sep) {
        Some(i) => {
            proof {
                lemma_find_seq(cs@, sep@);
                assert(sep@.len() == 3);
                assert(crate::text::occurs_at(cs@, sep@, i as int));
                assert(i + 3 <= cs@.len());
            }
            let n = cs.len();
            let r = sub_chars(cs, i + 3, n);
            assert(r@ == cs@.skip(i + 3));
            r
        },
        None => sub_chars(cs, 0, cs.len()),
    }
}

/// `url` with its scheme and `://` removed.
pub fn remove_protocol(url: &str) -> (r: String)
    ensures
        r@ == spec_remove_protocol(url@),
{
    let cs = chars_of(url);
    let r = remove_protocol_chars(&cs);
    string_of(&r)
}

/// The host part of `url`, with or without a scheme.
pub fn get_host_from_url(url: &str) -> (r: String)
    ensures
        r@ == spec_host_from_url(url@),
{
    let cs = chars_of(url);
    let rest = remove_protocol_chars(&cs);
    match find_char_index(&rest, '/') {
        Some(i) => {
            proof {
                lemma_find_char(rest@, '/');
            }
            let r = string_of_range(&rest, 0, i);
            assert(rest@.subrange(0, i as int) == rest@.take(i as int));
            r
        },
        None => string_of(&rest),
    }
}

/// The host that `get_host_from_url` reads never holds a `/`.
pub proof fn law_host_has_no_slash(url: Seq<char>)
    ensures
        forall|i: int|
            0 <= i < spec_host_from_url(url).len() ==> spec_host_from_url(url)[i] != '/',
{
    lemma_find_char(spec_remove_protocol(url), '/');
}

} // verus!
