//! A store on the local file system: where a key lives under the root, and
//! which keys are refused for leaving it.
use super::s3::{served_content_type, spec_served_content_type};
use super::{ServedHeaders, StorageError};
use crate::utils::http::{cache_control_value, spec_cache_control};
use crate::text::{chars_of, extend_chars, pieces, split, split_chars, string_of, trim_start_char, trim_start_matches_char};
use vstd::prelude::*;

verus! {

/// The cache year, in seconds, that served files may be kept for.
pub const YEAR_TO_SECONDS: u32 = 31536000;

/// A store rooted at a directory.
#[derive(Clone, Debug)]
pub struct LocalStorage {
    pub root: String,
}

/// `..`, the segment that climbs out of a directory.
pub open spec fn parent_segment() -> Seq<char> {
    seq!['.', '.']
}

/// How far one segment moves down from the directory it is read in: `..`
/// climbs one level, an empty segment or `.` stays, any other name descends.
pub open spec fn segment_step(seg: Seq<char>) -> int {
    if seg == parent_segment() {
        -1
    } else if seg.len() == 0 || seg == seq!['.'] {
        0
    } else {
        1
    }
}

/// How deep below the starting directory the segments lead.
pub open spec fn net_depth(segs: Seq<Seq<char>>) -> int
    decreases segs.len(),
{
    if segs.len() == 0 {
        0
    } else {
        net_depth(segs.drop_last()) + segment_step(segs.last())
    }
}

/// `rel` climbs out of the directory it is read against: some leading run
/// of its segments ends above that directory.
pub open spec fn climbs_out(rel: Seq<char>) -> bool {
    let segs = split(rel, '/');
    exists|k: int| 0 <= k <= segs.len() && #[trigger] net_depth(segs.take(k)) < 0
}

/// `PathBuf::join` of a relative path: a `/` goes between a non-empty root
/// that does not end in one and the path.
pub open spec fn join_path(root: Seq<char>, rel: Seq<char>) -> Seq<char> {
    if root.len() > 0 && root.last() != '/' {
        root + seq!['/'] + rel
    } else {
        root + rel
    }
}

/// Where `key` lives under `root`: the key without its leading slashes,
/// under the root; nowhere where the key climbs out of the root.
pub open spec fn spec_resolve(root: Seq<char>, key: Seq<char>) -> Option<Seq<char>> {
    let rel = trim_start_char(key, '/');
    if climbs_out(rel) {
        None
    } else {
        Some(join_path(root, rel))
    }
}

impl LocalStorage {
    /// A store rooted at `root`.
    pub fn new(root: String) -> (r: LocalStorage)
        ensures
            r.root == root,
    {
        LocalStorage { root }
    }

    /// The file that holds `key`; `None` for a key that would leave the root.
    pub fn resolve(&self, key: &str) -> (r: Option<String>)
        ensures
            match r {
                Some(p) => spec_resolve(self.root@, key@) == Some(p@),
                None => spec_resolve(self.root@, key@) is None,
            },
    {
        let k = chars_of(key);
        let rel = trim_start_matches_char(&k, '/');
        let segs = split_chars(&rel, '/');
        let dots = vec!['.', '.'];
        let dot = vec!['.'];
        assert(dots@ == parent_segment());
        assert(dot@ == seq!['.']);
        let mut depth: usize = 0;
        let mut i: usize = 0;
        assert(pieces(segs@).take(0) =~= Seq::<Seq<char>>::empty());
        while i < segs.len()
            invariant
                i <= segs.len(),
                depth <= i,
                dots@ == parent_segment(),
                dot@ == seq!['.'],
                pieces(segs@) == split(rel@, '/'),
                rel@ == trim_start_char(key@, '/'),
                depth == net_depth(pieces(segs@).take(i as int)),
                forall|j: int| 0 <= j <= i ==> net_depth(#[trigger] pieces(segs@).take(j)) >= 0,
            decreases segs.len() - i,
        {
            let ghost ps = pieces(segs@);
            assert(ps.take(i + 1).drop_last() =~= ps.take(i as int));
            assert(ps.take(i + 1).last() == segs@[i as int]@);
            if crate::text::chars_eq(&segs[i], &dots) {
                if depth == 0 {
                    assert(net_depth(ps.take(i + 1)) < 0);
                    return None;
                }
                depth = depth - 1;
            } else if segs[i].len() == 0 || crate::text::chars_eq(&segs[i], &dot) {
            } else {
                depth = depth + 1;
            }
            i = i + 1;
        }
        assert(pieces(segs@).take(segs.len() as int) =~= pieces(segs@));
        assert(!climbs_out(rel@));
        let mut out = chars_of(self.root.as_str());
        if out.len() > 0 && out[out.len() - 1] != '/' {
            out.push('/');
        }
        extend_chars(&mut out, &rel);
        Some(string_of(&out))
    }
}

impl LocalStorage {
    /// The file that holds `key`, or `NotFound` for a key that would leave
    /// the root: such a key is refused by every operation.
    pub fn locate(&self, key: &str) -> (r: Result<String, StorageError>)
        ensures
            match r {
                Ok(p) => spec_resolve(self.root@, key@) == Some(p@),
                Err(e) => spec_resolve(self.root@, key@) is None && e == StorageError::NotFound,
            },
    {
        match self.resolve(key) {
            Some(p) => Ok(p),
            None => Err(StorageError::NotFound),
        }
    }
}

/// A key that resolves lands under the root, and no leading run of its
/// segments climbs above the root.
pub proof fn law_resolved_stays_under_root(root: Seq<char>, key: Seq<char>)
    ensures
        spec_resolve(root, key) matches Some(p) ==> {
            let segs = split(trim_start_char(key, '/'), '/');
            &&& p.take(root.len() as int) == root
            &&& forall|k: int| 0 <= k <= segs.len() ==> net_depth(#[trigger] segs.take(k)) >= 0
        },
{
    if let Some(p) = spec_resolve(root, key) {
        assert(p.take(root.len() as int) == root);
    }
}

/// The storage error for a failed file operation: `NotFound` where the file
/// is missing, else the error's text.
pub fn map_io(not_found: bool, message: String) -> (r: StorageError)
    ensures
        r == (if not_found {
            StorageError::NotFound
        } else {
            StorageError::Other(message)
        }),
{
    if not_found {
        StorageError::NotFound
    } else {
        StorageError::Other(message)
    }
}

/// A failure other than a missing object, with its text.
pub fn to_other(message: String) -> (r: StorageError)
    ensures
        r == StorageError::Other(message),
{
    StorageError::Other(message)
}

/// The headers a file at `path` is served with: cached for a year, with the
/// content type its name suggests.
pub fn local_served_headers(path: &str) -> (r: ServedHeaders)
    ensures
        r.cache_control@ == spec_cache_control(YEAR_TO_SECONDS),
        r.content_type@ == spec_served_content_type(None, path@),
{
    ServedHeaders {
        cache_control: cache_control_value(YEAR_TO_SECONDS),
        content_type: served_content_type(None, path),
    }
}

} // verus!
