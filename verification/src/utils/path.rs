//! Reading request paths: the width a derivative asks for, the original it
//! is made from, the origin host a path may carry, and the storage key of an
//! object.
use crate::text::{
    all_digits, chars_of, ends_with, free_of, total_len, digits_value, extend_chars, find_char, find_char_index, find_seq,
    find_seq_index, join, join_chars, lemma_find_char, lemma_find_seq, lemma_split_nonempty,
    parse_unsigned_range, pieces, rfind_char, rfind_char_index, split,
    split_chars, string_of, sub_chars, trim_start_char, trim_start_matches_char,
};
use crate::utils::url::{scheme_separator, scheme_separator_chars};
use vstd::prelude::*;

verus! {

/// The width that one `.`-separated piece of a path asks for: a `w` followed
/// by decimal digits whose value fits in a `u32`.
///
/// A piece whose rest holds a numeric character other than an ASCII digit
/// (a Unicode digit of another script, say) asks for no width.
pub open spec fn width_of_piece(p: Seq<char>) -> Option<u32> {
    let rest = p.drop_first();
    if p.len() > 0 && p[0] == 'w' && rest.len() > 0 && all_digits(rest) && digits_value(rest)
        <= u32::MAX {
        Some(digits_value(rest) as u32)
    } else {
        None
    }
}

/// The width asked for by the first piece that asks for one.
pub open spec fn first_width(ps: Seq<Seq<char>>) -> Option<u32>
    decreases ps.len(),
{
    if ps.len() == 0 {
        None
    } else {
        match width_of_piece(ps[0]) {
            Some(w) => Some(w),
            None => first_width(ps.drop_first()),
        }
    }
}

/// The resize width that a request path asks for, such as `100` for
/// `/a/photo.w100.jpg`.
pub open spec fn spec_resize_width(path: Seq<char>) -> Option<u32> {
    first_width(split(path, '.'))
}

/// The directory part of a path: everything up to and including its last
/// `/`, or nothing.
pub open spec fn dir_part(path: Seq<char>) -> Seq<char> {
    match rfind_char(path, '/') {
        Some(i) => path.take(i + 1),
        None => seq![],
    }
}

/// The file name of a path: what follows its last `/`.
pub open spec fn file_part(path: Seq<char>) -> Seq<char> {
    match rfind_char(path, '/') {
        Some(i) => path.skip(i + 1),
        None => path,
    }
}

pub open spec fn webp_ext() -> Seq<char> {
    seq!['w', 'e', 'b', 'p']
}

pub open spec fn avif_ext() -> Seq<char> {
    seq!['a', 'v', 'i', 'f']
}

/// The `.`-separated pieces of a file name, without a final `webp` or `avif`
/// piece (the format a derivative is converted to).
pub open spec fn name_pieces(file: Seq<char>) -> Seq<Seq<char>> {
    let ps = split(file, '.');
    if ps.last() == webp_ext() || ps.last() == avif_ext() {
        ps.drop_last()
    } else {
        ps
    }
}

/// `get_original_path` is defined on `path`: where a resize is asked for, the
/// file name keeps at least two pieces, of which the one before the last
/// (the width) is dropped.
pub open spec fn original_path_defined(path: Seq<char>, has_resize: bool) -> bool {
    has_resize ==> name_pieces(file_part(path)).len() >= 2
}

/// The path of the original that a derivative is made from: the directory,
/// then the file name without the conversion suffix and, where a resize is
/// asked for, without the width piece.
pub open spec fn spec_original_path(path: Seq<char>, has_resize: bool) -> Seq<char> {
    let ps = name_pieces(file_part(path));
    let kept = if has_resize {
        ps.remove(ps.len() - 2)
    } else {
        ps
    };
    dir_part(path) + join(kept, seq!['.'])
}

/// How a raw request path splits into an origin (`scheme://host`) and a
/// path that starts with `/`.
pub open spec fn spec_parse_path(full: Seq<char>) -> (Option<Seq<char>>, Seq<char>) {
    match find_seq(full, scheme_separator()) {
        Some(pe) => {
            let protocol = full.take(pe + 3);
            let after = full.skip(pe + 3);
            match find_char(after, '/') {
                Some(i) => (Some(protocol + after.take(i)), after.skip(i)),
                None => (Some(protocol + after), seq!['/']),
            }
        },
        None => if full.len() > 0 && full[0] == '/' {
            (None, full)
        } else {
            (None, seq!['/'] + full)
        },
    }
}

/// The storage key of an object: the prefix, the host where `include_host`,
/// and the path without its leading slashes, joined with `/`.
pub open spec fn spec_object_key(
    prefix: Seq<char>,
    host: Seq<char>,
    path: Seq<char>,
    include_host: bool,
) -> Seq<char> {
    let rel = trim_start_char(path, '/');
    if include_host {
        prefix + seq!['/'] + host + seq!['/'] + rel
    } else {
        prefix + seq!['/'] + rel
    }
}

/// The width that one piece asks for, computed.
pub fn piece_width(p: &Vec<char>) -> (r: Option<u32>)
    ensures
        r == width_of_piece(p@),
{
    if p.len() >= 2 && p[0] == 'w' && p[1] != '+' {
        let r = parse_unsigned_range(p, 1, p.len(), u32::MAX);
        proof {
            let rest = p@.drop_first();
            assert(p@.subrange(1, p.len() as int) == rest);
            assert(rest[0] == p@[1]);
        }
        r
    } else {
        proof {
            if p.len() >= 2 && p[0] == 'w' {
                assert(!crate::text::is_ascii_digit(p@.drop_first()[0]));
            }
        }
        None
    }
}

/// The width that a request path asks for, such as `Some(100)` for
/// `/a/photo.w100.jpg`; `None` where no piece asks for one.
pub fn get_resize_width_from_path(path: &str) -> (r: Option<u32>)
    ensures
        r == spec_resize_width(path@),
{
    let cs = chars_of(path);
    let ps = split_chars(&cs, '.');
    let mut i: usize = 0;
    assert(pieces(ps@).skip(0) == pieces(ps@));
    while i < ps.len()
        invariant
            i <= ps.len(),
            pieces(ps@) == split(cs@, '.'),
            cs@ == path@,
            first_width(pieces(ps@).skip(i as int)) == first_width(pieces(ps@)),
        decreases ps.len() - i,
    {
        let w = piece_width(&ps[i]);
        assert(pieces(ps@).skip(i as int)[0] == ps@[i as int]@);
        assert(pieces(ps@).skip(i as int).drop_first() == pieces(ps@).skip(i + 1));
        if w.is_some() {
            assert(first_width(pieces(ps@).skip(i as int)) == w);
            return w;
        }
        i = i + 1;
    }
    None
}

fn webp_chars() -> (r: Vec<char>)
    ensures
        r@ == webp_ext(),
{
    let r = vec!['w', 'e', 'b', 'p'];
    assert(r@ == webp_ext());
    r
}

fn avif_chars() -> (r: Vec<char>)
    ensures
        r@ == avif_ext(),
{
    let r = vec!['a', 'v', 'i', 'f'];
    assert(r@ == avif_ext());
    r
}

/// Whether `get_original_path` is defined on `path`.
pub fn original_path_is_defined(path: &str, has_resize: bool) -> (r: bool)
    ensures
        r == original_path_defined(path@, has_resize),
{
    if !has_resize {
        return true;
    }
    let cs = chars_of(path);
    let file = match rfind_char_index(&cs, '/') {
        Some(i) => {
            proof {
                crate::text::lemma_rfind_char(cs@, '/');
            }
            let f = sub_chars(&cs, i + 1, cs.len());
            assert(f@ == cs@.skip(i + 1));
            f
        },
        None => {
            let f = sub_chars(&cs, 0, cs.len());
            assert(f@ == cs@);
            f
        },
    };
    let ps = split_chars(&file, '.');
    proof {
        lemma_split_nonempty(file@, '.');
    }
    let last = ps.len() - 1;
    let stripped = crate::text::chars_eq(&ps[last], &webp_chars()) || crate::text::chars_eq(
        &ps[last],
        &avif_chars(),
    );
    assert(pieces(ps@).last() == ps@[last as int]@);
    if stripped {
        ps.len() - 1 >= 2
    } else {
        ps.len() >= 2
    }
}

/// The path of the original behind a derivative: `/a/photo.w100.jpg.webp`
/// comes from `/a/photo.jpg` where `has_resize` is set.
pub fn get_original_path(path: &str, has_resize: bool) -> (r: String)
    requires
        original_path_defined(path@, has_resize),
    ensures
        r@ == spec_original_path(path@, has_resize),
{
    let cs = chars_of(path);
    let (mut out, file) = match rfind_char_index(&cs, '/') {
        Some(i) => {
            proof {
                crate::text::lemma_rfind_char(cs@, '/');
            }
            let d = sub_chars(&cs, 0, i + 1);
            let f = sub_chars(&cs, i + 1, cs.len());
            assert(d@ == cs@.take(i + 1));
            assert(f@ == cs@.skip(i + 1));
            (d, f)
        },
        None => {
            let f = sub_chars(&cs, 0, cs.len());
            assert(f@ == cs@);
            (Vec::new(), f)
        },
    };
    assert(out@ == dir_part(cs@));
    assert(file@ == file_part(cs@));
    let mut ps = split_chars(&file, '.');
    proof {
        lemma_split_nonempty(file@, '.');
    }
    let last = ps.len() - 1;
    let webp = webp_chars();
    let avif = avif_chars();
    if crate::text::chars_eq(&ps[last], &webp) || crate::text::chars_eq(&ps[last], &avif) {
        let ghost before = ps@;
        ps.pop();
        assert(pieces(ps@) == pieces(before).drop_last());
    }
    assert(pieces(ps@) == name_pieces(file_part(cs@)));
    if has_resize {
        let ghost before = ps@;
        let at = ps.len() - 2;
        ps.remove(at);
        assert(pieces(ps@) == pieces(before).remove(at as int));
    }
    let dot = vec!['.'];
    assert(dot@ == seq!['.']);
    let joined = join_chars(&ps, &dot);
    extend_chars(&mut out, &joined);
    string_of(&out)
}

/// Splits a raw request path into its origin and its path:
/// `https://example.com/a.jpg` gives `(Some("https://example.com"), "/a.jpg")`
/// and `a.jpg` gives `(None, "/a.jpg")`.
pub fn parse_path(full_path: &str) -> (r: (Option<String>, String))
    ensures
        r.0 is Some == spec_parse_path(full_path@).0 is Some,
        r.0 matches Some(h) ==> h@ == spec_parse_path(full_path@).0.unwrap(),
        r.1@ == spec_parse_path(full_path@).1,
{
    let cs = chars_of(full_path);
    let sep = scheme_separator_chars();
    match find_seq_index(&cs, &sep) {
        Some(pe) => {
            proof {
                lemma_find_seq(cs@, sep@);
                assert(sep@.len() == 3);
                assert(crate::text::occurs_at(cs@, sep@, pe as int));
                assert(pe + 3 <= cs@.len());
            }
            let n = cs.len();
            let start = pe + 3;
            let mut origin = sub_chars(&cs, 0, start);
            let after = sub_chars(&cs, start, cs.len());
            assert(origin@ == cs@.take(pe + 3));
            assert(after@ == cs@.skip(pe + 3));
            match find_char_index(&after, '/') {
                Some(i) => {
                    proof {
                        lemma_find_char(after@, '/');
                    }
                    let host = sub_chars(&after, 0, i);
                    let rest = sub_chars(&after, i, after.len());
                    assert(host@ == after@.take(i as int));
                    assert(rest@ == after@.skip(i as int));
                    extend_chars(&mut origin, &host);
                    (Some(string_of(&origin)), string_of(&rest))
                },
                None => {
                    extend_chars(&mut origin, &after);
                    let slash = vec!['/'];
                    assert(slash@ == seq!['/']);
                    (Some(string_of(&origin)), string_of(&slash))
                },
            }
        },
        None => {
            if cs.len() > 0 && cs[0] == '/' {
                (None, string_of(&cs))
            } else {
                let mut out = vec!['/'];
                assert(out@ == seq!['/']);
                extend_chars(&mut out, &cs);
                (None, string_of(&out))
            }
        },
    }
}

/// The storage key of an object under `prefix` (such as `images`), for the
/// origin `host` where `include_host` is set: `images/example.com/photo.png`.
pub fn object_key(prefix: &str, host: &str, path: &str, include_host: bool) -> (r: String)
    ensures
        r@ == spec_object_key(prefix@, host@, path@, include_host),
{
    let mut out = chars_of(prefix);
    let p = chars_of(path);
    let rel = trim_start_matches_char(&p, '/');
    let slash = vec!['/'];
    assert(slash@ == seq!['/']);
    extend_chars(&mut out, &slash);
    if include_host {
        let h = chars_of(host);
        extend_chars(&mut out, &h);
        extend_chars(&mut out, &slash);
    }
    extend_chars(&mut out, &rel);
    string_of(&out)
}

/// A path splits into its directory part and its file name.
pub proof fn lemma_dir_file(path: Seq<char>)
    ensures
        dir_part(path) + file_part(path) == path,
{
    crate::text::lemma_rfind_char(path, '/');
    match rfind_char(path, '/') {
        Some(i) => {
            assert(path.take(i + 1) + path.skip(i + 1) == path);
        },
        None => {
            assert(seq![] + path == path);
        },
    }
}

/// A path that asks for no resize and whose file name does not end in a
/// `webp` or `avif` piece is its own original.
pub proof fn law_plain_path_is_its_own_original(path: Seq<char>)
    requires
        split(file_part(path), '.').last() != webp_ext(),
        split(file_part(path), '.').last() != avif_ext(),
    ensures
        spec_original_path(path, false) == path,
{
    crate::text::lemma_join_split(file_part(path), '.');
    lemma_dir_file(path);
}

/// The path that `parse_path` gives always starts with `/`.
pub proof fn law_parsed_path_starts_with_slash(full: Seq<char>)
    ensures
        spec_parse_path(full).1.len() > 0,
        spec_parse_path(full).1[0] == '/',
{
    match find_seq(full, scheme_separator()) {
        Some(pe) => {
            let after = full.skip(pe + 3);
            lemma_find_char(after, '/');
        },
        None => {},
    }
}

/// `parse_path` loses no character: the origin followed by the path is the
/// raw path, except that a path is made up (`/`) where the raw path has none,
/// and a `/` is put in front of a relative path.
pub proof fn law_parse_path_loses_nothing(full: Seq<char>)
    ensures
        match spec_parse_path(full).0 {
            Some(h) => h + spec_parse_path(full).1 == full || (h == full
                && spec_parse_path(full).1 == seq!['/']),
            None => spec_parse_path(full).1 == full || spec_parse_path(full).1 == seq!['/']
                + full,
        },
{
    match find_seq(full, scheme_separator()) {
        Some(pe) => {
            lemma_find_seq(full, scheme_separator());
            let after = full.skip(pe + 3);
            lemma_find_char(after, '/');
            match find_char(after, '/') {
                Some(i) => {
                    assert(full.take(pe + 3) + after.take(i) + after.skip(i) == full);
                },
                None => {
                    assert(full.take(pe + 3) + after == full);
                },
            }
        },
        None => {},
    }
}

/// In a read-through cache the host segment keeps upstreams apart: two
/// hosts without `/` (as `get_host_from_url` gives them) that differ never
/// share a storage key, whatever the paths.
pub proof fn law_keys_keep_hosts_apart(
    prefix: Seq<char>,
    h1: Seq<char>,
    h2: Seq<char>,
    p1: Seq<char>,
    p2: Seq<char>,
)
    requires
        forall|i: int| 0 <= i < h1.len() ==> h1[i] != '/',
        forall|i: int| 0 <= i < h2.len() ==> h2[i] != '/',
        h1 != h2,
    ensures
        spec_object_key(prefix, h1, p1, true) != spec_object_key(prefix, h2, p2, true),
{
    let k1 = spec_object_key(prefix, h1, p1, true);
    let k2 = spec_object_key(prefix, h2, p2, true);
    let n: int = prefix.len() as int + 1;
    let r1 = trim_start_char(p1, '/');
    let r2 = trim_start_char(p2, '/');
    assert(k1 == prefix + seq!['/'] + h1 + seq!['/'] + r1);
    assert(k2 == prefix + seq!['/'] + h2 + seq!['/'] + r2);
    assert forall|i: int| 0 <= i < h1.len() implies k1[n + i] == h1[i] by {}
    assert forall|i: int| 0 <= i < h2.len() implies k2[n + i] == h2[i] by {}
    assert(k1[n + h1.len()] == '/');
    assert(k2[n + h2.len()] == '/');
    if k1 == k2 {
        if h1.len() < h2.len() {
            assert(k2[n + h1.len()] == h2[h1.len() as int]);
        } else if h2.len() < h1.len() {
            assert(k1[n + h2.len()] == h1[h2.len() as int]);
        } else {
            assert(h1 =~= h2) by {
                assert forall|i: int| 0 <= i < h1.len() implies h1[i] == h2[i] by {
                    assert(k1[n + i] == k2[n + i]);
                }
            }
        }
    }
}

/// The path asks for a variant of its original: a resize, or a conversion
/// to WebP or AVIF.
pub open spec fn asks_for_variant(path: Seq<char>) -> bool {
    spec_resize_width(path) is Some || ends_with(path, ".webp"@) || ends_with(path, ".avif"@)
}

/// A path ending in `.` and a four-letter extension has that extension as
/// the last piece of its file name.
proof fn lemma_extension_piece(path: Seq<char>, ext: Seq<char>)
    requires
        ext.len() == 4,
        free_of(ext, '.'),
        free_of(ext, '/'),
        ends_with(path, seq!['.'] + ext),
    ensures
        split(file_part(path), '.').last() == ext,
{
    let n = path.len() as int;
    let suffix = seq!['.'] + ext;
    assert forall|t: int| 0 <= t < 5 implies path[n - 5 + t] == suffix[t] by {
        assert(path.skip(n - 5)[t] == path[n - 5 + t]);
    }
    crate::text::lemma_rfind_char(path, '/');
    let f = file_part(path);
    match rfind_char(path, '/') {
        Some(r) => {
            if r >= n - 5 {
                assert(path[r] == suffix[r - (n - 5)]);
                if r == n - 5 {
                } else {
                    assert(suffix[r - (n - 5)] == ext[r - (n - 5) - 1]);
                }
            }
            assert(f == path.skip(r + 1));
        },
        None => {},
    }
    let m = f.len() as int;
    assert(m >= 5);
    assert forall|t: int| 0 <= t < 5 implies f[m - 5 + t] == suffix[t] by {
        match rfind_char(path, '/') {
            Some(r) => {
                assert(f[m - 5 + t] == path[r + 1 + m - 5 + t]);
            },
            None => {},
        }
    }
    assert forall|j: int| m - 5 < j < m implies f[j] != '.' by {
        assert(f[j] == suffix[j - (m - 5)]);
        assert(suffix[j - (m - 5)] == ext[j - (m - 5) - 1]);
    }
    assert(f[m - 5 + 0] == suffix[0]);
    assert(f[m - 5] == '.');
    crate::text::lemma_rfind_char_is(f, '.', Some(m - 5));
    crate::text::lemma_split_last(f, '.');
    assert(f.skip(m - 4) == ext) by {
        assert forall|t: int| 0 <= t < 4 implies f.skip(m - 4)[t] == ext[t] by {
            assert(f.skip(m - 4)[t] == f[m - 4 + t]);
            assert(f[m - 4 + t] == suffix[t + 1]);
        }
    }
}

/// A variant is never stored over its original: where the path asks for a
/// resize or a conversion, the original's path is shorter, so its storage
/// key differs from the variant's.
pub proof fn law_variant_never_overwrites_original(
    prefix: Seq<char>,
    host: Seq<char>,
    path: Seq<char>,
    include_host: bool,
)
    requires
        original_path_defined(path, spec_resize_width(path) is Some),
        asks_for_variant(path),
    ensures
        spec_original_path(path, spec_resize_width(path) is Some).len() < path.len(),
        spec_object_key(prefix, host, path, include_host) != spec_object_key(
            prefix,
            host,
            spec_original_path(path, spec_resize_width(path) is Some),
            include_host,
        ),
{
    reveal_strlit(".webp");
    reveal_strlit(".avif");
    let has_resize = spec_resize_width(path) is Some;
    let d = dir_part(path);
    let f = file_part(path);
    let dot = seq!['.'];
    lemma_dir_file(path);
    crate::text::lemma_rfind_char(path, '/');
    assert(free_of(f, '/')) by {
        match rfind_char(path, '/') {
            Some(r) => {
                assert forall|j: int| 0 <= j < f.len() implies f[j] != '/' by {
                    assert(f[j] == path[r + 1 + j]);
                }
            },
            None => {},
        }
    }
    let ps = split(f, '.');
    lemma_split_nonempty(f, '.');
    crate::text::lemma_join_split(f, '.');
    crate::text::lemma_split_free_of(f, '.', '/');
    crate::text::lemma_join_len(ps, dot);
    let stripped = ps.last() == webp_ext() || ps.last() == avif_ext();
    if ends_with(path, ".webp"@) {
        assert(".webp"@ == seq!['.'] + webp_ext());
        lemma_extension_piece(path, webp_ext());
    }
    if ends_with(path, ".avif"@) {
        assert(".avif"@ == seq!['.'] + avif_ext());
        lemma_extension_piece(path, avif_ext());
    }
    let np = name_pieces(f);
    let kept = if has_resize {
        np.remove(np.len() - 2)
    } else {
        np
    };
    let j = join(kept, dot);
    // The name without the asked-for pieces is shorter.
    if stripped {
        assert(np == ps.drop_last());
        if ps.len() == 1 {
            assert(kept.len() == 0);
            assert(j.len() == 0);
            assert(f == ps[0]);
        } else {
            crate::text::lemma_join_len(np, dot);
            assert(total_len(ps) == total_len(np) + ps.last().len());
            if has_resize {
                crate::text::lemma_total_len_remove(np, np.len() - 2);
                if kept.len() > 0 {
                    crate::text::lemma_join_len(kept, dot);
                }
            }
        }
    } else {
        assert(np == ps);
        assert(has_resize);
        crate::text::lemma_total_len_remove(ps, ps.len() - 2);
        if kept.len() > 0 {
            crate::text::lemma_join_len(kept, dot);
        }
    }
    assert(j.len() < f.len());
    // Neither name holds a `/`, so trimming reaches no further than the
    // directory part.
    assert forall|i: int| 0 <= i < kept.len() implies free_of(#[trigger] kept[i], '/') by {
        if stripped {
            if has_resize && i >= np.len() - 2 {
                assert(kept[i] == ps[i + 1]);
            } else {
                assert(kept[i] == ps[i]);
            }
        } else {
            if has_resize && i >= np.len() - 2 {
                assert(kept[i] == ps[i + 1]);
            } else {
                assert(kept[i] == ps[i]);
            }
        }
    }
    crate::text::lemma_join_free_of(kept, dot, '/');
    crate::text::lemma_trim_concat(d, f, '/');
    crate::text::lemma_trim_concat(d, j, '/');
    assert(spec_original_path(path, has_resize) == d + j);
    assert(spec_object_key(prefix, host, path, include_host).len() != spec_object_key(
        prefix,
        host,
        d + j,
        include_host,
    ).len());
}

} // verus!
