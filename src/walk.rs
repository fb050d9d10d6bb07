use vstd::prelude::*;
use vstd::string::*;

use crate::file::{AliyunFile, FileView};
use crate::path::{find_child, first_match, leaf_name, leaf_of};

verus! {

/// Positions of the `'/'` characters of `p`, in increasing order.
pub open spec fn slash_positions(p: Seq<char>) -> Seq<int>
    decreases p.len(),
{
    if p.len() == 0 {
        Seq::empty()
    } else if p.last() == '/' {
        slash_positions(p.drop_last()).push(p.len() - 1)
    } else {
        slash_positions(p.drop_last())
    }
}

/// Number of directories that a walk for `p` may list: the root and each proper ancestor.
pub open spec fn walk_levels(p: Seq<char>) -> int {
    (slash_positions(p).len() + 1) as int
}

/// The relative path of the directory listed at level `j` of a walk for `p`:
/// the root at level 0, then `p` up to its `j`-th `'/'`.
pub open spec fn dir_key(p: Seq<char>, j: int) -> Seq<char> {
    if j <= 0 {
        Seq::empty()
    } else {
        p.subrange(0, slash_positions(p)[j - 1])
    }
}

/// What a walk at `level` of path `p` does with the listing of its current directory.
pub enum WalkMove {
    /// The listing names the leaf: this is the first such file.
    Found(FileView),
    /// It does not: the walk lists the next level.
    Next,
    /// It does not, and no level is left.
    Done,
}

/// The move of a walk at `level` of path `p` on `listing`, as `PathWalk::advance` makes it.
pub open spec fn walk_move(p: Seq<char>, level: int, listing: Seq<AliyunFile>) -> WalkMove {
    match first_match(listing, leaf_name(p)) {
        Some(v) => WalkMove::Found(v),
        None => if level + 1 < walk_levels(p) {
            WalkMove::Next
        } else {
            WalkMove::Done
        },
    }
}

/// Number of listings that a walk for `p` reads from level `from` on, when level `j`
/// lists `listings[j]`: one per call of `PathWalk::advance`, until it stops.
pub open spec fn walk_reads(p: Seq<char>, listings: Seq<Seq<AliyunFile>>, from: int) -> int
    decreases walk_levels(p) - from,
{
    if from < 0 || from >= walk_levels(p) {
        0
    } else {
        match walk_move(p, from, listings[from]) {
            WalkMove::Next => 1 + walk_reads(p, listings, from + 1),
            _ => 1,
        }
    }
}

pub proof fn lemma_slash_positions(p: Seq<char>)
    ensures
        forall|k: int|
            0 <= k < slash_positions(p).len() ==> 0 <= #[trigger] slash_positions(p)[k] < p.len(),
    decreases p.len(),
{
    if p.len() > 0 {
        let q = p.drop_last();
        lemma_slash_positions(q);
        assert forall|k: int| 0 <= k < slash_positions(p).len() implies 0 <= #[trigger] slash_positions(p)[k]
            < p.len() by {
            if k < slash_positions(q).len() {
                assert(slash_positions(p)[k] == slash_positions(q)[k]);
            }
        }
    }
}

/// What a walk does once the listing of its current directory is known.
pub enum WalkStep {
    /// The leaf is named in the listing: this is the file.
    Found(AliyunFile),
    /// Not there: list this directory next.
    Next(String),
    /// No directory is left to list: the path names nothing.
    Exhausted,
}

/// A top-down search for the leaf of a path whose parent listing is not cached.
/// It lists the root, then each ancestor of the path from the top, and looks for
/// the leaf's name among the children of each.
pub struct PathWalk {
    pub path: String,
    pub leaf: String,
    pub slashes: Vec<usize>,
    pub level: usize,
}

impl PathWalk {
    pub open spec fn wf(&self) -> bool {
        &&& self.leaf@ == leaf_name(self.path@)
        &&& self.slashes@.len() == slash_positions(self.path@).len()
        &&& forall|k: int|
            0 <= k < self.slashes@.len() ==> self.slashes@[k] as int == slash_positions(
                self.path@,
            )[k]
        &&& self.level < walk_levels(self.path@)
    }

    /// A walk that starts at the root.
    pub fn new(path: &str) -> (r: PathWalk)
        ensures
            r.wf(),
            r.path@ == path@,
            r.level == 0,
    {
        let n = path.unicode_len();
        let mut slashes: Vec<usize> = Vec::new();
        let mut i: usize = 0;
        assert(path@.subrange(0, 0) =~= Seq::<char>::empty());
        while i < n
            invariant
                i <= n,
                n == path@.len(),
                slashes@.len() == slash_positions(path@.subrange(0, i as int)).len(),
                forall|k: int|
                    0 <= k < slashes@.len() ==> slashes@[k] as int == slash_positions(
                        path@.subrange(0, i as int),
                    )[k],
            decreases n - i,
        {
            assert(path@.subrange(0, i + 1).drop_last() =~= path@.subrange(0, i as int));
            if path.get_char(i) == '/' {
                slashes.push(i);
            }
            i = i + 1;
        }
        assert(path@.subrange(0, n as int) =~= path@);
        PathWalk { path: path.to_string(), leaf: leaf_of(path), slashes, level: 0 }
    }

    /// The relative path of the directory whose listing the walk waits for.
    pub fn current_dir(&self) -> (r: String)
        requires
            self.wf(),
        ensures
            r@ == dir_key(self.path@, self.level as int),
    {
        self.dir_at(self.level)
    }

    fn dir_at(&self, j: usize) -> (r: String)
        requires
            self.wf(),
            j < walk_levels(self.path@),
        ensures
            r@ == dir_key(self.path@, j as int),
    {
        if j == 0 {
            String::new()
        } else {
            proof {
                lemma_slash_positions(self.path@);
            }
            let end = self.slashes[j - 1];
            self.path.as_str().substring_char(0, end).to_string()
        }
    }

    /// Takes the listing of the current directory: the file when the leaf is named
    /// there (first match), else the next directory to list, if any is left.
    pub fn advance(&mut self, listing: &Vec<AliyunFile>) -> (r: WalkStep)
        requires
            old(self).wf(),
        ensures
            final(self).wf(),
            final(self).path == old(self).path,
            match walk_move(old(self).path@, old(self).level as int, listing@) {
                WalkMove::Found(v) => r matches WalkStep::Found(f) && f@ == v && final(self).level
                    == old(self).level,
                WalkMove::Next => {
                    &&& r matches WalkStep::Next(k)
                    &&& k@ == dir_key(old(self).path@, old(self).level + 1)
                    &&& final(self).level == old(self).level + 1
                },
                WalkMove::Done => r is Exhausted && final(self).level == old(self).level,
            },
    {
        match find_child(listing, &self.leaf) {
            Some(f) => WalkStep::Found(f),
            None => {
                if self.level < self.slashes.len() {
                    self.level = self.level + 1;
                    WalkStep::Next(self.dir_at(self.level))
                } else {
                    WalkStep::Exhausted
                }
            },
        }
    }
}

/// A walk for `p` from level `from`, whose level `j` lists `listings[j]`, reads one
/// listing per level, the root's first and then each ancestor's from the top, up to
/// the first listing that names the leaf; when none does it reads every level.
pub proof fn lemma_walk_reads_until_match(p: Seq<char>, listings: Seq<Seq<AliyunFile>>, from: int)
    requires
        0 <= from < walk_levels(p),
        listings.len() >= walk_levels(p),
    ensures
        forall|k: int|
            from <= k < walk_levels(p) && first_match(listings[k], leaf_name(p)) is Some && (forall|
                i: int,
            | from <= i < k ==> first_match(#[trigger] listings[i], leaf_name(p)) is None)
                ==> walk_reads(p, listings, from) == k - from + 1,
        (forall|i: int|
            from <= i < walk_levels(p) ==> first_match(#[trigger] listings[i], leaf_name(p)) is None)
            ==> walk_reads(p, listings, from) == walk_levels(p) - from,
    decreases walk_levels(p) - from,
{
    if from + 1 < walk_levels(p) {
        lemma_walk_reads_until_match(p, listings, from + 1);
    }
}

} // verus!
