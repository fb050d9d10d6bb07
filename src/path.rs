use vstd::prelude::*;
use vstd::string::*;

use crate::file::{root_view, AliyunFile, FileView};

verus! {

/// Index of the last `'/'` of a relative path, or -1 when there is none.
pub open spec fn last_slash(p: Seq<char>) -> int
    decreases p.len(),
{
    if p.len() == 0 {
        -1
    } else if p.last() == '/' {
        p.len() - 1
    } else {
        last_slash(p.drop_last())
    }
}

/// The relative path of the directory that holds `p` (empty for the root).
pub open spec fn parent_path(p: Seq<char>) -> Seq<char> {
    if last_slash(p) < 0 {
        Seq::empty()
    } else {
        p.subrange(0, last_slash(p))
    }
}

/// The last component of the relative path `p`.
pub open spec fn leaf_name(p: Seq<char>) -> Seq<char> {
    p.subrange(last_slash(p) + 1, p.len() as int)
}

/// The first file of `files` named `name`, in listing order.
pub open spec fn first_match(files: Seq<AliyunFile>, name: Seq<char>) -> Option<FileView>
    decreases files.len(),
{
    if files.len() == 0 {
        None
    } else if files[0].name@ == name {
        Some(files[0]@)
    } else {
        first_match(files.drop_first(), name)
    }
}

/// What a path names, given the cached listing of its parent directory (if any):
/// the root for the empty path, else the first child of the parent named like the leaf.
pub open spec fn lookup(path: Seq<char>, parent_listing: Option<Seq<AliyunFile>>) -> Option<
    FileView,
> {
    if path.len() == 0 {
        Some(root_view())
    } else {
        match parent_listing {
            Some(files) => first_match(files, leaf_name(path)),
            None => None,
        }
    }
}

/// The view of an optional file.
pub open spec fn opt_view(o: Option<AliyunFile>) -> Option<FileView> {
    match o {
        Some(f) => Some(f@),
        None => None,
    }
}

pub proof fn lemma_last_slash_bounds(p: Seq<char>)
    ensures
        -1 <= last_slash(p) < p.len(),
        last_slash(p) >= 0 ==> p[last_slash(p)] == '/',
        forall|j: int| last_slash(p) < j < p.len() ==> p[j] != '/',
    decreases p.len(),
{
    if p.len() > 0 && p.last() != '/' {
        let q = p.drop_last();
        lemma_last_slash_bounds(q);
        assert forall|j: int| last_slash(p) < j < p.len() implies p[j] != '/' by {
            if j < p.len() - 1 {
                assert(p[j] == q[j]);
            }
        }
    }
}

proof fn lemma_last_slash_at(p: Seq<char>, k: int)
    requires
        -1 <= k < p.len(),
        k >= 0 ==> p[k] == '/',
        forall|j: int| k < j < p.len() ==> p[j] != '/',
    ensures
        last_slash(p) == k,
    decreases p.len(),
{
    if p.len() > 0 && k < p.len() - 1 {
        assert(p.last() != '/');
        lemma_last_slash_at(p.drop_last(), k);
    }
}

/// Position of the last `'/'` of `path`, if any.
fn last_slash_index(path: &str) -> (r: Option<usize>)
    ensures
        match r {
            Some(k) => last_slash(path@) == k,
            None => last_slash(path@) == -1,
        },
{
    let n = path.unicode_len();
    let mut i: usize = n;
    while i > 0
        invariant
            i <= n,
            n == path@.len(),
            forall|j: int| i <= j < n ==> path@[j] != '/',
        decreases i,
    {
        if path.get_char(i - 1) == '/' {
            proof {
                lemma_last_slash_at(path@, i - 1);
            }
            return Some(i - 1);
        }
        i = i - 1;
    }
    proof {
        lemma_last_slash_at(path@, -1);
    }
    None
}

/// The relative path of the directory that holds `path`.
pub fn parent_of(path: &str) -> (r: String)
    ensures
        r@ == parent_path(path@),
{
    proof {
        lemma_last_slash_bounds(path@);
    }
    match last_slash_index(path) {
        Some(k) => path.substring_char(0, k).to_string(),
        None => String::new(),
    }
}

/// The last component of `path` (the whole path when it has no `'/'`).
pub fn leaf_of(path: &str) -> (r: String)
    ensures
        r@ == leaf_name(path@),
{
    proof {
        lemma_last_slash_bounds(path@);
    }
    let n = path.unicode_len();
    match last_slash_index(path) {
        Some(k) => path.substring_char(k + 1, n).to_string(),
        None => path.substring_char(0, n).to_string(),
    }
}

/// The first file of `files` whose name equals `name` exactly.
pub fn find_child(files: &Vec<AliyunFile>, name: &String) -> (r: Option<AliyunFile>)
    ensures
        opt_view(r) == first_match(files@, name@),
{
    let mut i: usize = 0;
    assert(files@.subrange(0, files@.len() as int) =~= files@);
    while i < files.len()
        invariant
            i <= files@.len(),
            first_match(files@, name@) == first_match(files@.subrange(i as int, files@.len() as int), name@),
        decreases files@.len() - i,
    {
        assert(files@.subrange(i as int, files@.len() as int).drop_first() =~= files@.subrange(
            i + 1,
            files@.len() as int,
        ));
        if files[i].name == *name {
            return Some(files[i].duplicate());
        }
        i = i + 1;
    }
    None
}

/// Resolves `path` against the listing of its parent directory, when one is cached.
pub fn find_in_listing(path: &str, parent_listing: Option<&Vec<AliyunFile>>) -> (r: Option<AliyunFile>)
    ensures
        opt_view(r) == lookup(
            path@,
            match parent_listing {
                Some(v) => Some(v@),
                None => None,
            },
        ),
{
    if path.unicode_len() == 0 {
        return Some(AliyunFile::new_root());
    }
    match parent_listing {
        Some(files) => {
            let leaf = leaf_of(path);
            find_child(files, &leaf)
        },
        None => None,
    }
}

} // verus!

verus! {

/// The first match is the earliest file of the listing that bears the name, and
/// a listing without such a file gives none.
pub proof fn lemma_first_match(files: Seq<AliyunFile>, name: Seq<char>)
    ensures
        match first_match(files, name) {
            Some(v) => exists|i: int|
                {
                    &&& 0 <= i < files.len()
                    &&& files[i]@ == v
                    &&& files[i].name@ == name
                    &&& forall|j: int| 0 <= j < i ==> files[j].name@ != name
                },
            None => forall|j: int| 0 <= j < files.len() ==> files[j].name@ != name,
        },
    decreases files.len(),
{
    if files.len() > 0 && files[0].name@ != name {
        let rest = files.drop_first();
        lemma_first_match(rest, name);
        match first_match(rest, name) {
            Some(v) => {
                let i = choose|i: int|
                    {
                        &&& 0 <= i < rest.len()
                        &&& rest[i]@ == v
                        &&& rest[i].name@ == name
                        &&& forall|j: int| 0 <= j < i ==> rest[j].name@ != name
                    };
                assert forall|j: int| 0 <= j < i + 1 implies files[j].name@ != name by {
                    if j > 0 {
                        assert(files[j] == rest[j - 1]);
                    }
                }
                assert(files[i + 1] == rest[i]);
            },
            None => {
                assert forall|j: int| 0 <= j < files.len() implies files[j].name@ != name by {
                    if j > 0 {
                        assert(files[j] == rest[j - 1]);
                    }
                }
            },
        }
    }
}

/// What a path names in a cache of directory listings keyed by relative path.
pub open spec fn cache_lookup(cache: Map<Seq<char>, Seq<AliyunFile>>, path: Seq<char>) -> Option<
    FileView,
> {
    lookup(
        path,
        if cache.contains_key(parent_path(path)) {
            Some(cache[parent_path(path)])
        } else {
            None
        },
    )
}

/// Name matching is exact and first-match, and it reads only the listing of the
/// path's own parent: files of the same name in other directories never take part,
/// so two caches that agree on the parent's entry resolve the path alike.
pub proof fn lemma_lookup_reads_parent_only(
    c1: Map<Seq<char>, Seq<AliyunFile>>,
    c2: Map<Seq<char>, Seq<AliyunFile>>,
    path: Seq<char>,
)
    requires
        path.len() > 0,
        c1.contains_key(parent_path(path)) == c2.contains_key(parent_path(path)),
        c1.contains_key(parent_path(path)) ==> c1[parent_path(path)] == c2[parent_path(path)],
    ensures
        cache_lookup(c1, path) == cache_lookup(c2, path),
        match cache_lookup(c1, path) {
            Some(v) => exists|i: int|
                {
                    &&& c1.contains_key(parent_path(path))
                    &&& 0 <= i < c1[parent_path(path)].len()
                    &&& #[trigger] c1[parent_path(path)][i]@ == v
                    &&& c1[parent_path(path)][i].name@ == leaf_name(path)
                    &&& forall|j: int|
                        0 <= j < i ==> c1[parent_path(path)][j].name@ != leaf_name(path)
                },
            None => c1.contains_key(parent_path(path)) ==> forall|j: int|
                0 <= j < c1[parent_path(path)].len() ==> c1[parent_path(path)][j].name@
                    != leaf_name(path),
        },
{
    if c1.contains_key(parent_path(path)) {
        lemma_first_match(c1[parent_path(path)], leaf_name(path));
    }
}

/// A path whose parent listing is cached and names its leaf resolves from that
/// listing alone, to the first file of that name, without listing anything.
pub proof fn lemma_cached_parent_resolves(path: Seq<char>, listing: Seq<AliyunFile>, i: int)
    requires
        path.len() > 0,
        0 <= i < listing.len(),
        listing[i].name@ == leaf_name(path),
    ensures
        lookup(path, Some(listing)) is Some,
        lookup(path, Some(listing)) == first_match(listing, leaf_name(path)),
{
    lemma_first_match(listing, leaf_name(path));
}

} // verus!
