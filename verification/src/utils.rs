//! Two short request-path helpers that go by `.`-separated pieces alone,
//! and the modules for URLs, paths, HTTP values, image formats and upstream
//! fetching.
pub mod path;
pub mod url;
pub mod fetch;
pub mod http;
pub mod img;

use crate::text::{
    chars_of, extend_chars, join, join_chars, parse_unsigned, parse_unsigned_range, pieces, split, split_chars, string_of, sub_chars,
};
use vstd::prelude::*;

verus! {

/// The first `.`-separated piece that starts with `w`.
pub open spec fn first_w_piece(ps: Seq<Seq<char>>) -> Option<Seq<char>>
    decreases ps.len(),
{
    if ps.len() == 0 {
        None
    } else if ps[0].len() > 0 && ps[0][0] == 'w' {
        Some(ps[0])
    } else {
        first_w_piece(ps.drop_first())
    }
}

/// The width read by the piece-wise helper: the first piece that
/// starts with `w`, the rest of it parsed as a `u32`.
pub open spec fn spec_first_w_width(path: Seq<char>) -> Option<u32> {
    match first_w_piece(split(path, '.')) {
        Some(p) => match parse_unsigned(p.drop_first(), u32::MAX as nat) {
            Some(v) => Some(v as u32),
            None => None,
        },
        None => None,
    }
}

/// What the piece-wise `get_original_path` gives: the path itself where
/// `has_resize` is set, else the pieces before the last two, then a `.` and
/// the extension.
pub open spec fn spec_first_original_path(path: Seq<char>, has_resize: bool) -> Seq<char> {
    let ps = split(path, '.');
    if has_resize {
        path
    } else {
        join(ps.take(ps.len() - 2), seq!['.']) + seq!['.'] + ps.last()
    }
}

/// Reads the resize width piece-wise: the first piece that
/// starts with `w` decides, whether or not the rest of it is a number.
pub fn get_resize_width_from_path(path: &str) -> (r: Option<u32>)
    ensures
        r == spec_first_w_width(path@),
{
    let cs = chars_of(path);
    let ps = split_chars(&cs, '.');
    let mut i: usize = 0;
    assert(pieces(ps@).skip(0) == pieces(ps@));
    while i < ps.len()
        invariant
            i <= ps.len(),
            cs@ == path@,
            pieces(ps@) == split(cs@, '.'),
            first_w_piece(pieces(ps@).skip(i as int)) == first_w_piece(pieces(ps@)),
        decreases ps.len() - i,
    {
        assert(pieces(ps@).skip(i as int)[0] == ps@[i as int]@);
        assert(pieces(ps@).skip(i as int).drop_first() == pieces(ps@).skip(i + 1));
        let p = &ps[i];
        if p.len() > 0 && p[0] == 'w' {
            let r = parse_unsigned_range(p, 1, p.len(), u32::MAX);
            assert(p@.subrange(1, p@.len() as int) == p@.drop_first());
            return r;
        }
        i = i + 1;
    }
    None
}

/// The original of a path, piece-wise: the path itself where `has_resize`
/// is set, else the pieces before the last two, a `.` and the extension.
pub fn get_original_path(path: &str, has_resize: bool) -> (r: String)
    requires
        !has_resize ==> split(path@, '.').len() >= 2,
    ensures
        r@ == spec_first_original_path(path@, has_resize),
{
    let cs = chars_of(path);
    if has_resize {
        return string_of(&cs);
    }
    let ps = split_chars(&cs, '.');
    let n = ps.len();
    let mut kept: Vec<Vec<char>> = Vec::new();
    let mut i: usize = 0;
    while i < n - 2
        invariant
            n == ps.len() >= 2,
            i <= n - 2,
            pieces(kept@) == pieces(ps@).take(i as int),
        decreases n - 2 - i,
    {
        let piece = sub_chars(&ps[i], 0, ps[i].len());
        assert(piece@ == ps@[i as int]@);
        let ghost before = kept@;
        kept.push(piece);
        assert(pieces(kept@) == pieces(before).push(piece@));
        assert(pieces(ps@).take(i + 1) == pieces(ps@).take(i as int).push(ps@[i as int]@));
        i = i + 1;
    }
    let dot = vec!['.'];
    assert(dot@ == seq!['.']);
    let mut out = join_chars(&kept, &dot);
    extend_chars(&mut out, &dot);
    extend_chars(&mut out, &ps[n - 1]);
    assert(pieces(ps@).last() == ps@[n - 1]@);
    string_of(&out)
}

} // verus!
