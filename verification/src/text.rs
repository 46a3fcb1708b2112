//! Character-level text handling shared by the path, URL and configuration
//! code: searching, splitting, joining, trimming and decimal numbers, each
//! with the meaning that the corresponding `str` method of std has.
use vstd::prelude::*;
use vstd::std_specs::iter::IteratorSpec;

verus! {

// ---------------------------------------------------------------------------
// Specifications
// ---------------------------------------------------------------------------

/// Index of the first `c` in `s` (`str::find` with a `char` pattern, counted
/// in characters).
pub open spec fn find_char(s: Seq<char>, c: char) -> Option<int>
    decreases s.len(),
{
    if s.len() == 0 {
        None
    } else if s[0] == c {
        Some(0)
    } else {
        match find_char(s.drop_first(), c) {
            Some(i) => Some(i + 1),
            None => None,
        }
    }
}

/// Index of the last `c` in `s` (`str::rfind` with a `char` pattern).
pub open spec fn rfind_char(s: Seq<char>, c: char) -> Option<int>
    decreases s.len(),
{
    if s.len() == 0 {
        None
    } else if s.last() == c {
        Some(s.len() - 1)
    } else {
        rfind_char(s.drop_last(), c)
    }
}

/// `pat` stands in `s` starting at index `i`.
pub open spec fn occurs_at(s: Seq<char>, pat: Seq<char>, i: int) -> bool {
    &&& 0 <= i
    &&& i + pat.len() <= s.len()
    &&& s.subrange(i, i + pat.len()) == pat
}

/// Index of the first occurrence of a non-empty `pat` in `s` (`str::find`
/// with a string pattern).
pub open spec fn find_seq(s: Seq<char>, pat: Seq<char>) -> Option<int>
    decreases s.len(),
{
    if s.len() < pat.len() {
        None
    } else if s.take(pat.len() as int) == pat {
        Some(0)
    } else if s.len() == 0 {
        None
    } else {
        match find_seq(s.drop_first(), pat) {
            Some(i) => Some(i + 1),
            None => None,
        }
    }
}

/// The pieces of `s` between the separators `sep`, as `str::split` yields
/// them: never empty, and one more piece than there are separators.
pub open spec fn split(s: Seq<char>, sep: char) -> Seq<Seq<char>>
    decreases s.len(),
{
    match find_char(s, sep) {
        Some(i) => {
            proof {
                lemma_find_char(s, sep);
            }
            seq![s.take(i)] + split(s.skip(i + 1), sep)
        },
        None => seq![s],
    }
}

/// The character sequences held by a vector of character vectors.
pub open spec fn pieces(v: Seq<Vec<char>>) -> Seq<Seq<char>> {
    v.map_values(|p: Vec<char>| p@)
}

/// The pieces joined with `sep` between each two (`[&str]::join`).
pub open spec fn join(parts: Seq<Seq<char>>, sep: Seq<char>) -> Seq<char>
    decreases parts.len(),
{
    if parts.len() == 0 {
        seq![]
    } else if parts.len() == 1 {
        parts[0]
    } else {
        join(parts.drop_last(), sep) + sep + parts.last()
    }
}

/// `s` without the copies of `c` at its start (`str::trim_start_matches`
/// with a `char` pattern).
pub open spec fn trim_start_char(s: Seq<char>, c: char) -> Seq<char>
    decreases s.len(),
{
    if s.len() > 0 && s[0] == c {
        trim_start_char(s.drop_first(), c)
    } else {
        s
    }
}

/// The characters with the Unicode property White_Space, which is what
/// `char::is_whitespace` tests.
pub open spec fn is_whitespace(c: char) -> bool {
    ||| c == '\t'
    ||| c == '\n'
    ||| c == '\u{0B}'
    ||| c == '\u{0C}'
    ||| c == '\r'
    ||| c == ' '
    ||| c == '\u{85}'
    ||| c == '\u{A0}'
    ||| c == '\u{1680}'
    ||| ('\u{2000}' <= c && c <= '\u{200A}')
    ||| c == '\u{2028}'
    ||| c == '\u{2029}'
    ||| c == '\u{202F}'
    ||| c == '\u{205F}'
    ||| c == '\u{3000}'
}

/// `s` without its leading whitespace.
pub open spec fn trim_start(s: Seq<char>) -> Seq<char>
    decreases s.len(),
{
    if s.len() > 0 && is_whitespace(s[0]) {
        trim_start(s.drop_first())
    } else {
        s
    }
}

/// `s` without its trailing whitespace.
pub open spec fn trim_end(s: Seq<char>) -> Seq<char>
    decreases s.len(),
{
    if s.len() > 0 && is_whitespace(s.last()) {
        trim_end(s.drop_last())
    } else {
        s
    }
}

/// `s` without leading and trailing whitespace (`str::trim`).
pub open spec fn trim(s: Seq<char>) -> Seq<char> {
    trim_end(trim_start(s))
}

pub open spec fn is_ascii_digit(c: char) -> bool {
    '0' <= c && c <= '9'
}

pub open spec fn all_digits(s: Seq<char>) -> bool {
    forall|i: int| 0 <= i < s.len() ==> #[trigger] is_ascii_digit(s[i])
}

pub open spec fn digit_value(c: char) -> nat {
    (c as int - '0' as int) as nat
}

/// The number that the decimal digits `s` write.
pub open spec fn digits_value(s: Seq<char>) -> nat
    decreases s.len(),
{
    if s.len() == 0 {
        0
    } else {
        digits_value(s.drop_last()) * 10 + digit_value(s.last())
    }
}

/// What `str::parse` gives for an unsigned integer type whose largest value
/// is `max`: an optional `+`, then at least one ASCII digit and nothing else,
/// and a value that fits.
pub open spec fn parse_unsigned(s: Seq<char>, max: nat) -> Option<nat> {
    let body = if s.len() > 0 && s[0] == '+' {
        s.drop_first()
    } else {
        s
    };
    if body.len() > 0 && all_digits(body) && digits_value(body) <= max {
        Some(digits_value(body))
    } else {
        None
    }
}

pub open spec fn digit_char(d: nat) -> char {
    (d + '0' as nat) as char
}

/// The decimal digits of `n`, without leading zeros (`u32`'s `Display`).
pub open spec fn decimal(n: nat) -> Seq<char>
    decreases n,
{
    if n < 10 {
        seq![digit_char(n)]
    } else {
        decimal(n / 10).push(digit_char(n % 10))
    }
}

/// `std`'s `to_lowercase` turns `s` into the lowercase ASCII word `word`.
///
/// Each character lowercases to itself, its ASCII capital does so too, and
/// the one other character whose lowercase is an ASCII letter is the Kelvin
/// sign, which becomes `k`; every other character lowercases to characters
/// outside ASCII.
pub open spec fn lowercases_to(s: Seq<char>, word: Seq<char>) -> bool {
    &&& s.len() == word.len()
    &&& forall|i: int| 0 <= i < s.len() ==> #[trigger] lowercase_char_is(s[i], word[i])
}

pub open spec fn lowercase_char_is(c: char, lower: char) -> bool {
    ||| c == lower
    ||| ('a' <= lower && lower <= 'z' && c as u32 == (lower as u32) - 32)
    ||| (lower == 'k' && c == '\u{212A}')
}

// ---------------------------------------------------------------------------
// Lemmas
// ---------------------------------------------------------------------------

/// `find_char` gives the first occurrence.
pub proof fn lemma_find_char(s: Seq<char>, c: char)
    ensures
        match find_char(s, c) {
            Some(k) => 0 <= k < s.len() && s[k] == c && forall|j: int|
                0 <= j < k ==> s[j] != c,
            None => forall|j: int| 0 <= j < s.len() ==> s[j] != c,
        },
    decreases s.len(),
{
    if s.len() > 0 && s[0] != c {
        lemma_find_char(s.drop_first(), c);
        match find_char(s.drop_first(), c) {
            Some(k) => {
                assert forall|j: int| 0 <= j < k + 1 implies s[j] != c by {
                    if j > 0 {
                        assert(s[j] == s.drop_first()[j - 1]);
                    }
                }
            },
            None => {
                assert forall|j: int| 0 <= j < s.len() implies s[j] != c by {
                    if j > 0 {
                        assert(s[j] == s.drop_first()[j - 1]);
                    }
                }
            },
        }
    }
}

/// A first occurrence found by scanning is what `find_char` gives.
pub proof fn lemma_find_char_is(s: Seq<char>, c: char, k: Option<int>)
    requires
        match k {
            Some(k) => 0 <= k < s.len() && s[k] == c && forall|j: int| 0 <= j < k ==> s[j] != c,
            None => forall|j: int| 0 <= j < s.len() ==> s[j] != c,
        },
    ensures
        find_char(s, c) == k,
{
    lemma_find_char(s, c);
    match find_char(s, c) {
        Some(f) => {
            match k {
                Some(k) => {
                    if f < k {
                        assert(s[f] != c);
                    } else if k < f {
                        assert(s[k] != c);
                    }
                },
                None => {
                    assert(s[f] != c);
                },
            }
        },
        None => {
            if let Some(k) = k {
                assert(s[k] != c);
            }
        },
    }
}

/// `rfind_char` gives the last occurrence.
pub proof fn lemma_rfind_char(s: Seq<char>, c: char)
    ensures
        match rfind_char(s, c) {
            Some(k) => 0 <= k < s.len() && s[k] == c && forall|j: int|
                k < j < s.len() ==> s[j] != c,
            None => forall|j: int| 0 <= j < s.len() ==> s[j] != c,
        },
    decreases s.len(),
{
    if s.len() > 0 && s.last() != c {
        lemma_rfind_char(s.drop_last(), c);
        assert forall|j: int| 0 <= j < s.len() - 1 implies s[j] == s.drop_last()[j] by {}
    }
}

/// A last occurrence found by scanning is what `rfind_char` gives.
pub proof fn lemma_rfind_char_is(s: Seq<char>, c: char, k: Option<int>)
    requires
        match k {
            Some(k) => 0 <= k < s.len() && s[k] == c && forall|j: int| k < j < s.len() ==> s[j] != c,
            None => forall|j: int| 0 <= j < s.len() ==> s[j] != c,
        },
    ensures
        rfind_char(s, c) == k,
{
    lemma_rfind_char(s, c);
    match rfind_char(s, c) {
        Some(f) => {
            match k {
                Some(k) => {
                    if f < k {
                        assert(s[k] != c);
                    } else if k < f {
                        assert(s[f] != c);
                    }
                },
                None => {
                    assert(s[f] != c);
                },
            }
        },
        None => {
            if let Some(k) = k {
                assert(s[k] != c);
            }
        },
    }
}

/// `find_seq` gives the first occurrence of a non-empty pattern.
pub proof fn lemma_find_seq(s: Seq<char>, pat: Seq<char>)
    requires
        pat.len() > 0,
    ensures
        match find_seq(s, pat) {
            Some(k) => occurs_at(s, pat, k) && forall|j: int| 0 <= j < k ==> !occurs_at(s, pat, j),
            None => forall|j: int| !occurs_at(s, pat, j),
        },
    decreases s.len(),
{
    if s.len() < pat.len() {
    } else if s.take(pat.len() as int) == pat {
        assert(s.subrange(0, pat.len() as int) == s.take(pat.len() as int));
    } else {
        assert(!occurs_at(s, pat, 0)) by {
            assert(s.subrange(0, pat.len() as int) == s.take(pat.len() as int));
        }
        lemma_find_seq(s.drop_first(), pat);
        let t = s.drop_first();
        assert forall|j: int| j >= 1 implies occurs_at(s, pat, j) == occurs_at(t, pat, j - 1) by {
            if j + pat.len() <= s.len() {
                assert(s.subrange(j, j + pat.len()) == t.subrange(j - 1, j - 1 + pat.len()));
            }
        }
        match find_seq(t, pat) {
            Some(k) => {
                assert forall|j: int| 0 <= j < k + 1 implies !occurs_at(s, pat, j) by {
                    if j >= 1 {
                        assert(occurs_at(s, pat, j) == occurs_at(t, pat, j - 1));
                    }
                }
                assert(occurs_at(s, pat, k + 1) == occurs_at(t, pat, k));
            },
            None => {
                assert forall|j: int| !occurs_at(s, pat, j) by {
                    if j >= 1 {
                        assert(occurs_at(s, pat, j) == occurs_at(t, pat, j - 1));
                    }
                }
            },
        }
    }
}

/// A first occurrence found by scanning is what `find_seq` gives.
pub proof fn lemma_find_seq_is(s: Seq<char>, pat: Seq<char>, k: Option<int>)
    requires
        pat.len() > 0,
        match k {
            Some(k) => occurs_at(s, pat, k) && forall|j: int| 0 <= j < k ==> !occurs_at(s, pat, j),
            None => forall|j: int| !occurs_at(s, pat, j),
        },
    ensures
        find_seq(s, pat) == k,
{
    lemma_find_seq(s, pat);
    match find_seq(s, pat) {
        Some(f) => {
            match k {
                Some(k) => {
                    if f < k {
                        assert(!occurs_at(s, pat, f));
                    } else if k < f {
                        assert(!occurs_at(s, pat, k));
                    }
                },
                None => {
                    assert(!occurs_at(s, pat, f));
                },
            }
        },
        None => {
            if let Some(k) = k {
                assert(!occurs_at(s, pat, k));
            }
        },
    }
}

/// `split` never yields an empty list of pieces.
pub proof fn lemma_split_nonempty(s: Seq<char>, sep: char)
    ensures
        split(s, sep).len() >= 1,
    decreases s.len(),
{
    lemma_find_char(s, sep);
    if let Some(i) = find_char(s, sep) {
        lemma_split_nonempty(s.skip(i + 1), sep);
    }
}

/// A string without the separator is split into itself alone.
pub proof fn lemma_split_no_sep(s: Seq<char>, sep: char)
    requires
        forall|j: int| 0 <= j < s.len() ==> s[j] != sep,
    ensures
        split(s, sep) == seq![s],
{
    lemma_find_char_is(s, sep, None);
}

/// Splitting at the first separator, at index `i`.
pub proof fn lemma_split_at_first(s: Seq<char>, sep: char, i: int)
    requires
        0 <= i < s.len(),
        s[i] == sep,
        forall|j: int| 0 <= j < i ==> s[j] != sep,
    ensures
        split(s, sep) == seq![s.take(i)] + split(s.skip(i + 1), sep),
{
    lemma_find_char_is(s, sep, Some(i));
}

/// The index at which `trim_start_char` cuts.
pub proof fn lemma_trim_start_char_is(s: Seq<char>, c: char, k: int)
    requires
        0 <= k <= s.len(),
        forall|j: int| 0 <= j < k ==> s[j] == c,
        k < s.len() ==> s[k] != c,
    ensures
        trim_start_char(s, c) == s.skip(k),
    decreases k,
{
    if k == 0 {
        assert(s.skip(0) == s);
    } else {
        let t = s.drop_first();
        assert forall|j: int| 0 <= j < k - 1 implies t[j] == c by {
            assert(t[j] == s[j + 1]);
        }
        assert(k - 1 < t.len() ==> t[k - 1] == s[k]);
        lemma_trim_start_char_is(t, c, k - 1);
        assert(t.skip(k - 1) == s.skip(k));
    }
}

pub proof fn lemma_trim_start_is(s: Seq<char>, k: int)
    requires
        0 <= k <= s.len(),
        forall|j: int| 0 <= j < k ==> is_whitespace(#[trigger] s[j]),
        k < s.len() ==> !is_whitespace(s[k]),
    ensures
        trim_start(s) == s.skip(k),
    decreases k,
{
    if k == 0 {
        assert(s.skip(0) == s);
    } else {
        let t = s.drop_first();
        assert forall|j: int| 0 <= j < k - 1 implies is_whitespace(#[trigger] t[j]) by {
            assert(t[j] == s[j + 1]);
        }
        assert(k - 1 < t.len() ==> t[k - 1] == s[k]);
        lemma_trim_start_is(t, k - 1);
        assert(t.skip(k - 1) == s.skip(k));
    }
}

pub proof fn lemma_trim_end_is(s: Seq<char>, k: int)
    requires
        0 <= k <= s.len(),
        forall|j: int| k <= j < s.len() ==> is_whitespace(#[trigger] s[j]),
        k > 0 ==> !is_whitespace(s[k - 1]),
    ensures
        trim_end(s) == s.take(k),
    decreases s.len() - k,
{
    if k == s.len() {
        assert(s.take(k) == s);
    } else {
        let t = s.drop_last();
        assert forall|j: int| k <= j < t.len() implies is_whitespace(#[trigger] t[j]) by {
            assert(t[j] == s[j]);
        }
        assert(k > 0 ==> t[k - 1] == s[k - 1]);
        lemma_trim_end_is(t, k);
        assert(t.take(k) == s.take(k));
    }
}

/// A longer run of digits is worth at least as much as its prefix.
pub proof fn lemma_digits_value_prefix(s: Seq<char>, i: int)
    requires
        0 <= i <= s.len(),
        all_digits(s),
    ensures
        digits_value(s.take(i)) <= digits_value(s),
    decreases s.len() - i,
{
    if i < s.len() {
        lemma_digits_value_prefix(s, i + 1);
        assert(s.take(i + 1).drop_last() == s.take(i));
        assert(is_ascii_digit(s[i]));
    } else {
        assert(s.take(i) == s);
    }
}

/// Joining one more piece.
pub proof fn lemma_join_push(parts: Seq<Seq<char>>, sep: Seq<char>, p: Seq<char>)
    ensures
        join(parts.push(p), sep) == if parts.len() == 0 {
            p
        } else {
            join(parts, sep) + sep + p
        },
{
    assert(parts.push(p).drop_last() == parts);
}

/// Joining a piece in front of at least one other.
pub proof fn lemma_join_prepend(a: Seq<char>, rest: Seq<Seq<char>>, sep: Seq<char>)
    requires
        rest.len() > 0,
    ensures
        join(seq![a] + rest, sep) == a + sep + join(rest, sep),
    decreases rest.len(),
{
    let all = seq![a] + rest;
    assert(all.drop_last() == seq![a] + rest.drop_last());
    assert(all.last() == rest.last());
    if rest.len() == 1 {
        assert(seq![a] + rest.drop_last() == seq![a]);
        assert(join(seq![a], sep) == a);
        assert(join(rest, sep) == rest[0]);
        assert(join(all, sep) == join(all.drop_last(), sep) + sep + all.last());
    } else {
        lemma_join_prepend(a, rest.drop_last(), sep);
        assert(join(all, sep) == join(all.drop_last(), sep) + sep + all.last());
        assert(join(rest, sep) == join(rest.drop_last(), sep) + sep + rest.last());
        assert(a + sep + join(rest.drop_last(), sep) + sep + rest.last() == a + sep + (join(
            rest.drop_last(),
            sep,
        ) + sep + rest.last()));
    }
}

/// Joining the pieces of a split with the separator gives back the string.
pub proof fn lemma_join_split(s: Seq<char>, c: char)
    ensures
        join(split(s, c), seq![c]) == s,
    decreases s.len(),
{
    lemma_find_char(s, c);
    match find_char(s, c) {
        None => {},
        Some(i) => {
            let t = s.skip(i + 1);
            lemma_join_split(t, c);
            lemma_split_nonempty(t, c);
            lemma_join_prepend(s.take(i), split(t, c), seq![c]);
            assert(s.take(i) + seq![c] + t == s);
        },
    }
}

/// Splitting pieces that hold no `c`, joined with `c`, gives back the pieces.
pub proof fn lemma_split_join(ps: Seq<Seq<char>>, c: char)
    requires
        ps.len() >= 1,
        forall|j: int| 0 <= j < ps.len() ==> free_of(#[trigger] ps[j], c),
    ensures
        split(join(ps, seq![c]), c) == ps,
    decreases ps.len(),
{
    let a = ps[0];
    assert(free_of(a, c));
    if ps.len() == 1 {
        assert(join(ps, seq![c]) == a);
        lemma_split_no_sep(a, c);
        assert(ps == seq![a]);
    } else {
        let rest = ps.drop_first();
        assert(ps == seq![a] + rest);
        lemma_join_prepend(a, rest, seq![c]);
        let s = join(ps, seq![c]);
        assert(s == a + seq![c] + join(rest, seq![c]));
        let i = a.len() as int;
        assert(s[i] == c);
        assert forall|j: int| 0 <= j < i implies s[j] != c by {
            assert(s[j] == a[j]);
        }
        lemma_split_at_first(s, c, i);
        assert(s.take(i) == a);
        assert(s.skip(i + 1) == join(rest, seq![c]));
        assert forall|j: int| 0 <= j < rest.len() implies free_of(#[trigger] rest[j], c) by {
            assert(rest[j] == ps[j + 1]);
        }
        lemma_split_join(rest, c);
    }
}

/// `c` does not occur in `s`.
pub open spec fn free_of(s: Seq<char>, c: char) -> bool {
    forall|i: int| 0 <= i < s.len() ==> s[i] != c
}

/// Trimming the leading `c`s of `d + x`, where `x` holds no `c`, trims `d`
/// alone.
pub proof fn lemma_trim_concat(d: Seq<char>, x: Seq<char>, c: char)
    requires
        free_of(x, c),
    ensures
        trim_start_char(d + x, c) == trim_start_char(d, c) + x,
    decreases d.len(),
{
    if d.len() == 0 {
        assert(d + x == x);
        if x.len() > 0 {
            assert(x[0] != c);
        }
    } else if d[0] == c {
        assert((d + x).drop_first() == d.drop_first() + x);
        lemma_trim_concat(d.drop_first(), x, c);
    } else {
        assert((d + x)[0] == d[0]);
    }
}

/// The total length of the pieces.
pub open spec fn total_len(ps: Seq<Seq<char>>) -> nat
    decreases ps.len(),
{
    if ps.len() == 0 {
        0
    } else {
        total_len(ps.drop_last()) + ps.last().len()
    }
}

pub proof fn lemma_total_len_concat(a: Seq<Seq<char>>, b: Seq<Seq<char>>)
    ensures
        total_len(a + b) == total_len(a) + total_len(b),
    decreases b.len(),
{
    if b.len() == 0 {
        assert(a + b == a);
    } else {
        assert((a + b).drop_last() == a + b.drop_last());
        lemma_total_len_concat(a, b.drop_last());
    }
}

/// Removing a piece takes away its length.
pub proof fn lemma_total_len_remove(ps: Seq<Seq<char>>, i: int)
    requires
        0 <= i < ps.len(),
    ensures
        total_len(ps.remove(i)) + ps[i].len() == total_len(ps),
{
    assert(ps.remove(i) == ps.take(i) + ps.skip(i + 1));
    assert(ps == ps.take(i) + (seq![ps[i]] + ps.skip(i + 1)));
    lemma_total_len_concat(ps.take(i), ps.skip(i + 1));
    lemma_total_len_concat(ps.take(i), seq![ps[i]] + ps.skip(i + 1));
    lemma_total_len_concat(seq![ps[i]], ps.skip(i + 1));
    assert(seq![ps[i]].drop_last() == Seq::<Seq<char>>::empty());
    assert(total_len(seq![ps[i]]) == total_len(Seq::<Seq<char>>::empty()) + ps[i].len());
}

/// The length of a join: the pieces and a separator between each two.
pub proof fn lemma_join_len(ps: Seq<Seq<char>>, sep: Seq<char>)
    requires
        ps.len() > 0,
    ensures
        join(ps, sep).len() == total_len(ps) + (ps.len() - 1) * sep.len(),
    decreases ps.len(),
{
    if ps.len() == 1 {
        assert(ps.drop_last() == Seq::<Seq<char>>::empty());
        assert(total_len(ps) == total_len(ps.drop_last()) + ps.last().len());
        assert(join(ps, sep) == ps[0]);
        assert((ps.len() - 1) * sep.len() == 0);
    } else {
        lemma_join_len(ps.drop_last(), sep);
        let n = ps.len() as int;
        let m = sep.len() as int;
        assert((n - 1) * m == (n - 2) * m + m) by (nonlinear_arith);
        assert(join(ps, sep) == join(ps.drop_last(), sep) + sep + ps.last());
        assert(total_len(ps) == total_len(ps.drop_last()) + ps.last().len());
    }
}

/// The last piece of a split: what follows the last separator.
pub proof fn lemma_split_last(s: Seq<char>, c: char)
    ensures
        split(s, c).last() == match rfind_char(s, c) {
            Some(k) => s.skip(k + 1),
            None => s,
        },
        rfind_char(s, c) is Some ==> split(s, c).len() >= 2,
    decreases s.len(),
{
    lemma_find_char(s, c);
    lemma_rfind_char(s, c);
    match find_char(s, c) {
        None => {
            lemma_rfind_char_is(s, c, None);
        },
        Some(i) => {
            let t = s.skip(i + 1);
            lemma_split_last(t, c);
            lemma_split_nonempty(t, c);
            lemma_rfind_char(t, c);
            assert((seq![s.take(i)] + split(t, c)).last() == split(t, c).last());
            match rfind_char(t, c) {
                Some(k) => {
                    assert forall|j: int| i + 1 + k < j < s.len() implies s[j] != c by {
                        assert(s[j] == t[j - i - 1]);
                    }
                    assert(s[i + 1 + k] == t[k]);
                    lemma_rfind_char_is(s, c, Some(i + 1 + k));
                    assert(t.skip(k + 1) == s.skip(i + 1 + k + 1));
                },
                None => {
                    assert forall|j: int| i < j < s.len() implies s[j] != c by {
                        assert(s[j] == t[j - i - 1]);
                    }
                    lemma_rfind_char_is(s, c, Some(i));
                },
            }
        },
    }
}

/// The pieces of a string free of `d` are free of `d` too.
pub proof fn lemma_split_free_of(s: Seq<char>, c: char, d: char)
    requires
        free_of(s, d),
    ensures
        forall|j: int| 0 <= j < split(s, c).len() ==> free_of(#[trigger] split(s, c)[j], d),
    decreases s.len(),
{
    lemma_find_char(s, c);
    match find_char(s, c) {
        None => {},
        Some(i) => {
            let t = s.skip(i + 1);
            assert(free_of(t, d)) by {
                assert forall|j: int| 0 <= j < t.len() implies t[j] != d by {
                    assert(t[j] == s[j + i + 1]);
                }
            }
            assert(free_of(s.take(i), d)) by {
                assert forall|j: int| 0 <= j < i implies s.take(i)[j] != d by {
                    assert(s.take(i)[j] == s[j]);
                }
            }
            lemma_split_free_of(t, c, d);
            let ps = split(s, c);
            assert forall|j: int| 0 <= j < ps.len() implies free_of(#[trigger] ps[j], d) by {
                if j > 0 {
                    assert(ps[j] == split(t, c)[j - 1]);
                }
            }
        },
    }
}

/// Pieces free of `d`, joined with a separator free of `d`, are free of `d`.
pub proof fn lemma_join_free_of(ps: Seq<Seq<char>>, sep: Seq<char>, d: char)
    requires
        forall|j: int| 0 <= j < ps.len() ==> free_of(#[trigger] ps[j], d),
        free_of(sep, d),
    ensures
        free_of(join(ps, sep), d),
    decreases ps.len(),
{
    if ps.len() > 1 {
        lemma_join_free_of(ps.drop_last(), sep, d);
        assert(free_of(ps.last(), d)) by {
            assert(ps.last() == ps[ps.len() - 1]);
        }
        let a = join(ps.drop_last(), sep);
        let r = a + sep + ps.last();
        assert forall|i: int| 0 <= i < r.len() implies r[i] != d by {
            if i < a.len() {
                assert(r[i] == a[i]);
            } else if i < a.len() + sep.len() {
                assert(r[i] == sep[i - a.len()]);
            } else {
                assert(r[i] == ps.last()[i - a.len() - sep.len()]);
            }
        }
    } else if ps.len() == 1 {
        assert(free_of(ps[0], d));
    }
}

// ---------------------------------------------------------------------------
// Executable helpers
// ---------------------------------------------------------------------------

/// Appends one character to a string.
///
/// Trusted wrapper around `String::push`, which vstd leaves unspecified: the
/// string afterwards holds its former characters followed by `c`.
#[verifier::external_body]
pub(crate) fn push_char(s: &mut String, c: char)
    ensures
        final(s)@ == old(s)@.push(c),
{
    s.push(c);
}

/// The characters of `s`, in order.
pub fn chars_of(s: &str) -> (r: Vec<char>)
    ensures
        r@ == s@,
{
    broadcast use vstd::string::group_string_axioms;

    let mut out: Vec<char> = Vec::new();
    for c in it: s.chars()
        invariant
            out@ == it.seq().take(it.index() as int),
            it.seq() == s@,
    {
        out.push(c);
    }
    out
}

/// The string made of `cs[from..to]`.
pub fn string_of_range(cs: &Vec<char>, from: usize, to: usize) -> (r: String)
    requires
        from <= to <= cs.len(),
    ensures
        r@ == cs@.subrange(from as int, to as int),
{
    let mut out = String::new();
    let mut i = from;
    while i < to
        invariant
            from <= i <= to <= cs.len(),
            out@ == cs@.subrange(from as int, i as int),
        decreases to - i,
    {
        push_char(&mut out, cs[i]);
        assert(cs@.subrange(from as int, i + 1) == cs@.subrange(from as int, i as int).push(
            cs@[i as int],
        ));
        i = i + 1;
    }
    out
}

/// The string made of `cs`.
pub fn string_of(cs: &Vec<char>) -> (r: String)
    ensures
        r@ == cs@,
{
    let r = string_of_range(cs, 0, cs.len());
    assert(cs@.subrange(0, cs@.len() as int) == cs@);
    r
}

/// Appends the characters of `t` to `v`.
pub fn extend_chars(v: &mut Vec<char>, t: &Vec<char>)
    ensures
        final(v)@ == old(v)@ + t@,
{
    let mut i: usize = 0;
    while i < t.len()
        invariant
            i <= t.len(),
            v@ == old(v)@ + t@.take(i as int),
        decreases t.len() - i,
    {
        v.push(t[i]);
        assert(t@.take(i + 1) == t@.take(i as int).push(t@[i as int]));
        i = i + 1;
    }
    assert(t@.take(t.len() as int) == t@);
}

/// `cs[from..to]` as a vector of its own.
pub fn sub_chars(cs: &Vec<char>, from: usize, to: usize) -> (r: Vec<char>)
    requires
        from <= to <= cs.len(),
    ensures
        r@ == cs@.subrange(from as int, to as int),
{
    let mut out: Vec<char> = Vec::new();
    let mut i = from;
    while i < to
        invariant
            from <= i <= to <= cs.len(),
            out@ == cs@.subrange(from as int, i as int),
        decreases to - i,
    {
        out.push(cs[i]);
        assert(cs@.subrange(from as int, i + 1) == cs@.subrange(from as int, i as int).push(
            cs@[i as int],
        ));
        i = i + 1;
    }
    out
}

/// Whether two character sequences are equal.
pub fn chars_eq(a: &Vec<char>, b: &Vec<char>) -> (r: bool)
    ensures
        r == (a@ == b@),
{
    if a.len() != b.len() {
        return false;
    }
    let mut i: usize = 0;
    while i < a.len()
        invariant
            a.len() == b.len(),
            i <= a.len(),
            forall|j: int| 0 <= j < i ==> a@[j] == b@[j],
        decreases a.len() - i,
    {
        if a[i] != b[i] {
            return false;
        }
        i = i + 1;
    }
    assert(a@ == b@);
    true
}

/// The index of the first `c` at or after `from`.
pub fn find_char_from(cs: &Vec<char>, c: char, from: usize) -> (r: Option<usize>)
    requires
        from <= cs.len(),
    ensures
        match r {
            Some(k) => from <= k < cs.len() && cs@[k as int] == c && forall|j: int|
                from <= j < k ==> cs@[j] != c,
            None => forall|j: int| from <= j < cs.len() ==> cs@[j] != c,
        },
{
    let mut i = from;
    while i < cs.len()
        invariant
            from <= i <= cs.len(),
            forall|j: int| from <= j < i ==> cs@[j] != c,
        decreases cs.len() - i,
    {
        if cs[i] == c {
            return Some(i);
        }
        i = i + 1;
    }
    None
}

/// The index of the first `c` in `cs` (`str::find`).
pub fn find_char_index(cs: &Vec<char>, c: char) -> (r: Option<usize>)
    ensures
        match r {
            Some(k) => find_char(cs@, c) == Some(k as int),
            None => find_char(cs@, c) is None,
        },
{
    let r = find_char_from(cs, c, 0);
    proof {
        match r {
            Some(k) => lemma_find_char_is(cs@, c, Some(k as int)),
            None => lemma_find_char_is(cs@, c, None),
        }
    }
    r
}

/// The index of the last `c` in `cs` (`str::rfind`).
pub fn rfind_char_index(cs: &Vec<char>, c: char) -> (r: Option<usize>)
    ensures
        match r {
            Some(k) => rfind_char(cs@, c) == Some(k as int),
            None => rfind_char(cs@, c) is None,
        },
{
    let mut i = cs.len();
    while i > 0
        invariant
            i <= cs.len(),
            forall|j: int| i <= j < cs.len() ==> cs@[j] != c,
        decreases i,
    {
        if cs[i - 1] == c {
            proof {
                lemma_rfind_char_is(cs@, c, Some(i - 1));
            }
            return Some(i - 1);
        }
        i = i - 1;
    }
    proof {
        lemma_rfind_char_is(cs@, c, None);
    }
    None
}

/// The index of the first occurrence of the non-empty `pat` in `cs`.
pub fn find_seq_index(cs: &Vec<char>, pat: &Vec<char>) -> (r: Option<usize>)
    requires
        pat.len() > 0,
    ensures
        match r {
            Some(k) => find_seq(cs@, pat@) == Some(k as int),
            None => find_seq(cs@, pat@) is None,
        },
{
    if cs.len() < pat.len() {
        proof {
            lemma_find_seq_is(cs@, pat@, None);
        }
        return None;
    }
    let last = cs.len() - pat.len();
    let mut i: usize = 0;
    while i <= last
        invariant
            last == cs.len() - pat.len(),
            pat.len() > 0,
            forall|j: int| 0 <= j < i ==> !occurs_at(cs@, pat@, j),
        decreases last + 1 - i,
    {
        let mut k: usize = 0;
        let mut same = true;
        while k < pat.len()
            invariant
                i <= last,
                last == cs.len() - pat.len(),
                k <= pat.len(),
                same == (forall|j: int| 0 <= j < k ==> cs@[i + j] == pat@[j]),
            decreases pat.len() - k,
        {
            if cs[i + k] != pat[k] {
                same = false;
            }
            k = k + 1;
        }
        if same {
            assert(cs@.subrange(i as int, i + pat.len()) == pat@);
            proof {
                lemma_find_seq_is(cs@, pat@, Some(i as int));
            }
            return Some(i);
        }
        assert(!occurs_at(cs@, pat@, i as int)) by {
            if cs@.subrange(i as int, i + pat.len()) == pat@ {
                let j = choose|j: int| 0 <= j < pat.len() && cs@[i + j] != pat@[j];
                assert(cs@.subrange(i as int, i + pat.len())[j] == cs@[i + j]);
            }
        }
        i = i + 1;
    }
    proof {
        lemma_find_seq_is(cs@, pat@, None);
    }
    None
}

/// The pieces of `cs` between the separators `sep` (`str::split`).
pub fn split_chars(cs: &Vec<char>, sep: char) -> (r: Vec<Vec<char>>)
    ensures
        pieces(r@) == split(cs@, sep),
{
    let mut parts: Vec<Vec<char>> = Vec::new();
    let mut start: usize = 0;
    assert(cs@.skip(0) == cs@);
    let mut i: usize = 0;
    while i < cs.len()
        invariant
            start <= i <= cs.len(),
            forall|j: int| start <= j < i ==> cs@[j] != sep,
            pieces(parts@) + split(cs@.skip(start as int), sep) == split(cs@, sep),
        decreases cs.len() - i,
    {
        if cs[i] == sep {
            let piece = sub_chars(cs, start, i);
            proof {
                let t = cs@.skip(start as int);
                assert forall|j: int| 0 <= j < i - start implies t[j] != sep by {
                    assert(t[j] == cs@[start + j]);
                }
                lemma_split_at_first(t, sep, i - start);
                assert(t.take(i - start) == piece@);
                assert(t.skip(i - start + 1) == cs@.skip(i + 1));
            }
            let ghost before = pieces(parts@);
            parts.push(piece);
            assert(pieces(parts@) == before.push(piece@));
            start = i + 1;
        }
        i = i + 1;
    }
    let piece = sub_chars(cs, start, cs.len());
    proof {
        let t = cs@.skip(start as int);
        assert(t == piece@);
        assert forall|j: int| 0 <= j < t.len() implies t[j] != sep by {
            assert(t[j] == cs@[start + j]);
        }
        lemma_split_no_sep(t, sep);
    }
    let ghost before = pieces(parts@);
    parts.push(piece);
    assert(pieces(parts@) == before.push(piece@));
    parts
}

/// The pieces joined with `sep` between each two (`[&str]::join`).
pub fn join_chars(parts: &Vec<Vec<char>>, sep: &Vec<char>) -> (r: Vec<char>)
    ensures
        r@ == join(pieces(parts@), sep@),
{
    let mut out: Vec<char> = Vec::new();
    let mut i: usize = 0;
    while i < parts.len()
        invariant
            i <= parts.len(),
            out@ == join(pieces(parts@).take(i as int), sep@),
        decreases parts.len() - i,
    {
        proof {
            lemma_join_push(pieces(parts@).take(i as int), sep@, pieces(parts@)[i as int]);
            assert(pieces(parts@).take(i + 1) == pieces(parts@).take(i as int).push(
                pieces(parts@)[i as int],
            ));
        }
        if i > 0 {
            extend_chars(&mut out, sep);
        }
        extend_chars(&mut out, &parts[i]);
        i = i + 1;
    }
    assert(pieces(parts@).take(parts.len() as int) == pieces(parts@));
    out
}

/// The index at which the leading copies of `c` end.
pub fn skip_leading(cs: &Vec<char>, c: char) -> (r: usize)
    ensures
        r <= cs.len(),
        trim_start_char(cs@, c) == cs@.skip(r as int),
{
    let mut i: usize = 0;
    while i < cs.len() && cs[i] == c
        invariant
            i <= cs.len(),
            forall|j: int| 0 <= j < i ==> cs@[j] == c,
        decreases cs.len() - i,
    {
        i = i + 1;
    }
    proof {
        lemma_trim_start_char_is(cs@, c, i as int);
    }
    i
}

/// `s` with the leading copies of `c` removed (`str::trim_start_matches`).
pub fn trim_start_matches_char(cs: &Vec<char>, c: char) -> (r: Vec<char>)
    ensures
        r@ == trim_start_char(cs@, c),
{
    let k = skip_leading(cs, c);
    let r = sub_chars(cs, k, cs.len());
    assert(cs@.subrange(k as int, cs.len() as int) == cs@.skip(k as int));
    r
}

/// Whether `c` is Unicode whitespace (`char::is_whitespace`).
pub fn char_is_whitespace(c: char) -> (r: bool)
    ensures
        r == is_whitespace(c),
{
    c == '\t' || c == '\n' || c == '\u{0B}' || c == '\u{0C}' || c == '\r' || c == ' ' || c
        == '\u{85}' || c == '\u{A0}' || c == '\u{1680}' || ('\u{2000}' <= c && c <= '\u{200A}')
        || c == '\u{2028}' || c == '\u{2029}' || c == '\u{202F}' || c == '\u{205F}' || c
        == '\u{3000}'
}

/// `cs` without leading and trailing whitespace (`str::trim`).
pub fn trim_chars(cs: &Vec<char>) -> (r: Vec<char>)
    ensures
        r@ == trim(cs@),
{
    let mut a: usize = 0;
    while a < cs.len() && char_is_whitespace(cs[a])
        invariant
            a <= cs.len(),
            forall|j: int| 0 <= j < a ==> is_whitespace(#[trigger] cs@[j]),
        decreases cs.len() - a,
    {
        a = a + 1;
    }
    proof {
        lemma_trim_start_is(cs@, a as int);
    }
    let mut b: usize = cs.len();
    while b > a && char_is_whitespace(cs[b - 1])
        invariant
            a <= b <= cs.len(),
            forall|j: int| b <= j < cs.len() ==> is_whitespace(#[trigger] cs@[j]),
        decreases b - a,
    {
        b = b - 1;
    }
    proof {
        let t = cs@.skip(a as int);
        assert forall|j: int| b - a <= j < t.len() implies is_whitespace(#[trigger] t[j]) by {
            assert(t[j] == cs@[a + j]);
        }
        if b > a {
            assert(t[b - a - 1] == cs@[b - 1]);
        }
        lemma_trim_end_is(t, b - a);
        assert(t.take(b - a) == cs@.subrange(a as int, b as int));
    }
    sub_chars(cs, a, b)
}

/// Whether `cs` lowercases to the lowercase ASCII word `word`.
pub fn lowercases_to_word(cs: &Vec<char>, word: &Vec<char>) -> (r: bool)
    ensures
        r == lowercases_to(cs@, word@),
{
    if cs.len() != word.len() {
        return false;
    }
    let mut i: usize = 0;
    while i < cs.len()
        invariant
            cs.len() == word.len(),
            i <= cs.len(),
            forall|j: int| 0 <= j < i ==> #[trigger] lowercase_char_is(cs@[j], word@[j]),
        decreases cs.len() - i,
    {
        let c = cs[i];
        let w = word[i];
        let ok = c == w || ('a' <= w && w <= 'z' && (c as u32) == (w as u32) - 32) || (w == 'k'
            && c == '\u{212A}');
        if !ok {
            assert(!lowercase_char_is(cs@[i as int], word@[i as int]));
            return false;
        }
        i = i + 1;
    }
    true
}

/// What `str::parse` gives for `cs[from..to]` as an unsigned number no
/// larger than `max`.
pub fn parse_unsigned_range(cs: &Vec<char>, from: usize, to: usize, max: u32) -> (r: Option<u32>)
    requires
        from <= to <= cs.len(),
    ensures
        match r {
            Some(v) => parse_unsigned(cs@.subrange(from as int, to as int), max as nat) == Some(
                v as nat,
            ),
            None => parse_unsigned(cs@.subrange(from as int, to as int), max as nat) is None,
        },
{
    let ghost s = cs@.subrange(from as int, to as int);
    assert(s.len() > 0 ==> s[0] == cs@[from as int]);
    let mut start = from;
    if from < to && cs[from] == '+' {
        start = from + 1;
        assert(s.drop_first() == cs@.subrange(start as int, to as int));
    } else {
        assert(s == cs@.subrange(start as int, to as int));
    }
    let ghost body = cs@.subrange(start as int, to as int);
    if start == to {
        return None;
    }
    let mut v: u64 = 0;
    let mut i = start;
    assert(parse_unsigned(s, max as nat) == if all_digits(body) && digits_value(body) <= max {
        Some(digits_value(body))
    } else {
        None
    });
    while i < to
        invariant
            from <= start <= i <= to <= cs.len(),
            s == cs@.subrange(from as int, to as int),
            parse_unsigned(s, max as nat) == if all_digits(body) && digits_value(body) <= max {
                Some(digits_value(body))
            } else {
                None
            },
            body == cs@.subrange(start as int, to as int),
            all_digits(body.take(i - start)),
            v == digits_value(body.take(i - start)),
            v <= max,
        decreases to - i,
    {
        let c = cs[i];
        if !('0' <= c && c <= '9') {
            assert(!all_digits(body)) by {
                assert(!is_ascii_digit(body[i - start]));
            }
            return None;
        }
        let d = (c as u32 - '0' as u32) as u64;
        proof {
            assert(body.take(i - start + 1).drop_last() == body.take(i - start));
            assert(body.take(i - start + 1).last() == c);
            assert forall|j: int| 0 <= j < i - start + 1 implies #[trigger] is_ascii_digit(
                body.take(i - start + 1)[j],
            ) by {
                if j < i - start {
                    assert(body.take(i - start + 1)[j] == body.take(i - start)[j]);
                }
            }
        }
        v = v * 10 + d;
        if v > max as u64 {
            proof {
                if all_digits(body) {
                    lemma_digits_value_prefix(body, i - start + 1);
                }
            }
            return None;
        }
        i = i + 1;
    }
    assert(body.take(to - start) == body);
    Some(v as u32)
}

/// The decimal digits of `n` (`u32`'s `Display`).
pub fn decimal_chars(n: u32) -> (r: Vec<char>)
    ensures
        r@ == decimal(n as nat),
    decreases n,
{
    let d = n % 10;
    let c = char_of_digit(d);
    if n < 10 {
        let mut v: Vec<char> = Vec::new();
        v.push(c);
        v
    } else {
        let mut v = decimal_chars(n / 10);
        v.push(c);
        v
    }
}

fn char_of_digit(d: u32) -> (c: char)
    requires
        d < 10,
    ensures
        c == digit_char(d as nat),
{
    if d == 0 {
        '0'
    } else if d == 1 {
        '1'
    } else if d == 2 {
        '2'
    } else if d == 3 {
        '3'
    } else if d == 4 {
        '4'
    } else if d == 5 {
        '5'
    } else if d == 6 {
        '6'
    } else if d == 7 {
        '7'
    } else if d == 8 {
        '8'
    } else {
        '9'
    }
}

/// `s` ends with `suffix` (`str::ends_with`).
pub open spec fn ends_with(s: Seq<char>, suffix: Seq<char>) -> bool {
    suffix.len() <= s.len() && s.skip(s.len() - suffix.len()) == suffix
}

/// Whether `cs` ends with `suffix`.
pub fn ends_with_chars(cs: &Vec<char>, suffix: &Vec<char>) -> (r: bool)
    ensures
        r == ends_with(cs@, suffix@),
{
    if suffix.len() > cs.len() {
        return false;
    }
    let tail = sub_chars(cs, cs.len() - suffix.len(), cs.len());
    assert(tail@ == cs@.skip(cs.len() - suffix.len()));
    chars_eq(&tail, suffix)
}

} // verus!
