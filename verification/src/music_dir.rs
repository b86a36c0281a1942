//! The fair directory selector.
//!
//! A `MusicDir` mirrors one filesystem directory: its local track files, its
//! subdirectories, and two play counters. Selection walks the tree towards the
//! least-played branch, so that over many selections every branch is played in
//! proportion to how many tracks it holds.

use vstd::prelude::*;

use crate::dir_error::MusicDirCreationError;

verus! {

/// A directory's contents as handed in by the caller: the directory's name,
/// the names of the plain files directly inside it, and its subdirectories.
pub struct DirListing {
    pub name: String,
    pub file_names: Vec<String>,
    pub sub_dirs: Vec<DirListing>,
}

/// One node of the music tree: the directory's name, its eligible track file
/// names, its non-empty subdirectories, and the play counters driving fair
/// selection. `sub_plays` counts plays inside descendants, `local_plays`
/// plays of this node's own tracks; `subtree_tracks` is the fixed number of
/// tracks in the whole subtree.
pub struct MusicDir {
    pub name: String,
    pub local_track_names: Vec<String>,
    pub sub_dirs: Vec<MusicDir>,
    pub local_plays: u64,
    pub sub_plays: u64,
    pub subtree_tracks: u64,
}

/// A file is an eligible track when its name ends in ".mp3" with at least one
/// character before the extension.
pub open spec fn is_track_name(name: Seq<char>) -> bool {
    &&& name.len() > 4
    &&& name[name.len() - 4] == '.'
    &&& name[name.len() - 3] == 'm'
    &&& name[name.len() - 2] == 'p'
    &&& name[name.len() - 1] == '3'
}

/// The eligible tracks among a directory's own files, in file order.
pub open spec fn local_tracks_of(files: Seq<String>) -> Seq<String> {
    files.filter(|f: String| is_track_name(f@))
}

/// Total number of eligible tracks in a listing and all its subdirectories.
pub open spec fn listing_track_count(d: DirListing) -> int
    decreases d, 1nat,
{
    local_tracks_of(d.file_names@).len() + listings_track_count(d.sub_dirs@)
}

/// Total number of eligible tracks across a sequence of listings.
pub open spec fn listings_track_count(s: Seq<DirListing>) -> int
    decreases s, 0nat,
{
    if s.len() == 0 {
        0
    } else {
        listing_track_count(s[0]) + listings_track_count(s.drop_first())
    }
}

/// Sum of `subtree_tracks` over a sequence of nodes.
pub open spec fn sum_subtree_tracks(s: Seq<MusicDir>) -> int
    decreases s.len(),
{
    if s.len() == 0 {
        0
    } else {
        s[0].subtree_tracks + sum_subtree_tracks(s.drop_first())
    }
}

/// Sum of total plays over a sequence of nodes.
pub open spec fn sum_plays(s: Seq<MusicDir>) -> int
    decreases s.len(),
{
    if s.len() == 0 {
        0
    } else {
        s[0].plays() + sum_plays(s.drop_first())
    }
}

/// Played-factor comparison, `p1 / s1 <= p2 / s2` for positive sizes, stated
/// by cross-multiplication so that it stays in the integers.
pub open spec fn factor_le(p1: int, s1: int, p2: int, s2: int) -> bool {
    p1 * s2 <= p2 * s1
}

/// Node `i` has a minimal played-factor within `s`.
pub open spec fn min_factor_in(s: Seq<MusicDir>, i: int) -> bool {
    &&& 0 <= i < s.len()
    &&& forall|j: int|
        0 <= j < s.len() ==> factor_le(
            s[i].plays(),
            s[i].subtree_tracks as int,
            (#[trigger] s[j]).plays(),
            s[j].subtree_tracks as int,
        )
}

impl MusicDir {
    /// Plays recorded anywhere in this subtree.
    pub open spec fn plays(self) -> int {
        self.local_plays + self.sub_plays
    }

    /// Counters and totals are consistent through the tree, and every node
    /// holds at least one track somewhere below it.
    pub open spec fn wf(self) -> bool
        decreases self,
    {
        &&& self.subtree_tracks == self.local_track_names@.len() + sum_subtree_tracks(
            self.sub_dirs@,
        )
        &&& self.sub_plays == sum_plays(self.sub_dirs@)
        &&& self.subtree_tracks >= 1
        &&& forall|i: int|
            0 <= i < self.sub_dirs@.len() ==> (#[trigger] self.sub_dirs@[i]).wf()
    }

    /// Child `i` ties the minimum played-factor: no child is strictly less
    /// played, and the local tracks (if there are any) are not strictly less
    /// played either.
    pub open spec fn is_candidate_child(self, i: int) -> bool {
        &&& min_factor_in(self.sub_dirs@, i)
        &&& self.local_track_names@.len() > 0 ==> factor_le(
            self.sub_dirs@[i].plays(),
            self.sub_dirs@[i].subtree_tracks as int,
            self.local_plays as int,
            self.local_track_names@.len() as int,
        )
    }
}

/// A selection that ends at this node: some local track was picked and only
/// the local counter moved. This step is taken exactly when no child ties the
/// minimum played-factor (ties between a child and the local tracks go to the
/// child).
pub open spec fn fair_local_step(pre: MusicDir, post: MusicDir, path: Seq<String>) -> bool {
    &&& pre.local_track_names@.len() > 0
    &&& forall|i: int| !pre.is_candidate_child(i)
    &&& path.len() == 2
    &&& path[0] == pre.name
    &&& exists|k: int| 0 <= k < pre.local_track_names@.len() && path[1] == pre.local_track_names@[k]
    &&& post.name == pre.name
    &&& post.local_track_names == pre.local_track_names
    &&& post.sub_dirs == pre.sub_dirs
    &&& post.local_plays == pre.local_plays + 1
    &&& post.sub_plays == pre.sub_plays
    &&& post.subtree_tracks == pre.subtree_tracks
}

/// The frame of a selection that descends into child `i`: the child tied the
/// minimum played-factor, this node's descendant-play counter moved by one,
/// and everything else here stayed as it was.
pub open spec fn fair_child_frame(pre: MusicDir, post: MusicDir, i: int) -> bool {
    &&& pre.is_candidate_child(i)
    &&& post.name == pre.name
    &&& post.local_track_names == pre.local_track_names
    &&& post.local_plays == pre.local_plays
    &&& post.sub_plays == pre.sub_plays + 1
    &&& post.subtree_tracks == pre.subtree_tracks
    &&& post.sub_dirs@.len() == pre.sub_dirs@.len()
    &&& forall|j: int|
        0 <= j < pre.sub_dirs@.len() && j != i ==> post.sub_dirs@[j] == pre.sub_dirs@[j]
}

/// How one selection relates the tree before and after to the returned path:
/// at every level either a local track was picked here, or the walk descended
/// into a child tying the minimum played-factor while this level's counters
/// and everything off the chosen branch stayed fixed.
pub open spec fn fair_selection(pre: MusicDir, post: MusicDir, path: Seq<String>) -> bool
    decreases pre,
{
    ||| fair_local_step(pre, post, path)
    ||| exists|i: int|
        0 <= i < pre.sub_dirs@.len() && #[trigger] fair_child_frame(pre, post, i) && path.len()
            >= 1 && path[0] == pre.name && fair_selection(
            pre.sub_dirs@[i],
            post.sub_dirs@[i],
            path.drop_first(),
        )
}

/// How a built tree relates to the listing it was built from: the local
/// tracks are exactly the eligible files in order, the counters start at
/// zero, the total is the listing's track count, and the children are
/// exactly the non-empty subdirectories in order, each built recursively.
pub open spec fn builds_to(d: DirListing, m: MusicDir) -> bool
    decreases d, 1nat,
{
    &&& m.name == d.name
    &&& m.local_track_names@ == local_tracks_of(d.file_names@)
    &&& m.local_plays == 0
    &&& m.sub_plays == 0
    &&& m.subtree_tracks == listing_track_count(d)
    &&& children_build_to(d.sub_dirs@, m.sub_dirs@)
}

/// The nodes `ms` are built, in order, from exactly those listings of `ds`
/// that hold at least one track; listings without tracks are passed over.
pub open spec fn children_build_to(ds: Seq<DirListing>, ms: Seq<MusicDir>) -> bool
    decreases ds, 0nat,
{
    if ds.len() == 0 {
        ms.len() == 0
    } else if listing_track_count(ds[0]) > 0 {
        ms.len() > 0 && builds_to(ds[0], ms[0]) && children_build_to(
            ds.drop_first(),
            ms.drop_first(),
        )
    } else {
        children_build_to(ds.drop_first(), ms)
    }
}

/// The played-factor order is transitive (for positive sizes).
proof fn lemma_factor_le_trans(p1: int, s1: int, p2: int, s2: int, p3: int, s3: int)
    requires
        s1 > 0,
        s2 > 0,
        s3 > 0,
        factor_le(p1, s1, p2, s2),
        factor_le(p2, s2, p3, s3),
    ensures
        factor_le(p1, s1, p3, s3),
{
    assert(p1 * s3 <= p3 * s1) by (nonlinear_arith)
        requires
            s1 > 0,
            s2 > 0,
            s3 > 0,
            p1 * s2 <= p2 * s1,
            p2 * s3 <= p3 * s2,
    ;
}

/// Filtering one more file appends it exactly when it is a track.
proof fn lemma_tracks_take_step(files: Seq<String>, i: int)
    requires
        0 <= i < files.len(),
    ensures
        local_tracks_of(files.take(i + 1)) == if is_track_name(files[i]@) {
            local_tracks_of(files.take(i)).push(files[i])
        } else {
            local_tracks_of(files.take(i))
        },
{
    let pred = |f: String| is_track_name(f@);
    assert(files.take(i + 1).drop_last() =~= files.take(i));
    assert(files.take(i + 1).last() == files[i]);
    reveal_with_fuel(Seq::filter, 2);
}

/// Counting one more listing adds exactly its track count.
proof fn lemma_listings_count_take_step(s: Seq<DirListing>, i: int)
    requires
        0 <= i < s.len(),
    ensures
        listings_track_count(s.take(i + 1)) == listings_track_count(s.take(i))
            + listing_track_count(s[i]),
    decreases i,
{
    if i == 0 {
        assert(s.take(1).drop_first() =~= s.take(0));
        assert(s.take(0).len() == 0);
    } else {
        lemma_listings_count_take_step(s.drop_first(), i - 1);
        assert(s.take(i + 1).drop_first() =~= s.drop_first().take(i));
        assert(s.take(i).drop_first() =~= s.drop_first().take(i - 1));
    }
}

/// Track counts are never negative.
proof fn lemma_listing_count_nonneg(d: DirListing)
    ensures
        listing_track_count(d) >= 0,
    decreases d, 1nat,
{
    lemma_listings_count_nonneg(d.sub_dirs@);
}

/// Track counts of listing sequences are never negative.
proof fn lemma_listings_count_nonneg(s: Seq<DirListing>)
    ensures
        listings_track_count(s) >= 0,
    decreases s, 0nat,
{
    if s.len() > 0 {
        lemma_listing_count_nonneg(s[0]);
        lemma_listings_count_nonneg(s.drop_first());
    }
}

/// A prefix never counts more tracks than the whole sequence.
proof fn lemma_listings_count_take_le(s: Seq<DirListing>, i: int)
    requires
        0 <= i <= s.len(),
    ensures
        listings_track_count(s.take(i)) <= listings_track_count(s),
    decreases s.len() - i,
{
    if i == s.len() {
        assert(s.take(i) =~= s);
    } else {
        lemma_listings_count_take_step(s, i);
        lemma_listing_count_nonneg(s[i]);
        lemma_listings_count_take_le(s, i + 1);
    }
}

/// Appending a node adds its subtree total to the sum.
proof fn lemma_sum_subtree_tracks_push(s: Seq<MusicDir>, x: MusicDir)
    ensures
        sum_subtree_tracks(s.push(x)) == sum_subtree_tracks(s) + x.subtree_tracks,
    decreases s.len(),
{
    if s.len() == 0 {
        assert(s.push(x)[0] == x);
        assert(s.push(x).drop_first() =~= Seq::<MusicDir>::empty());
        assert(sum_subtree_tracks(s.push(x)) == x.subtree_tracks + sum_subtree_tracks(
            s.push(x).drop_first(),
        ));
        assert(sum_subtree_tracks(Seq::<MusicDir>::empty()) == 0);
    } else {
        lemma_sum_subtree_tracks_push(s.drop_first(), x);
        assert(s.push(x)[0] == s[0]);
        assert(s.push(x).drop_first() =~= s.drop_first().push(x));
        assert(sum_subtree_tracks(s.push(x)) == s[0].subtree_tracks + sum_subtree_tracks(
            s.drop_first().push(x),
        ));
        assert(sum_subtree_tracks(s) == s[0].subtree_tracks + sum_subtree_tracks(s.drop_first()));
    }
}

/// Appending a node adds its plays to the sum.
proof fn lemma_sum_plays_push(s: Seq<MusicDir>, x: MusicDir)
    ensures
        sum_plays(s.push(x)) == sum_plays(s) + x.plays(),
    decreases s.len(),
{
    if s.len() == 0 {
        assert(s.push(x)[0] == x);
        assert(s.push(x).drop_first() =~= Seq::<MusicDir>::empty());
        assert(sum_plays(s.push(x)) == x.plays() + sum_plays(s.push(x).drop_first()));
        assert(sum_plays(Seq::<MusicDir>::empty()) == 0);
    } else {
        lemma_sum_plays_push(s.drop_first(), x);
        assert(s.push(x)[0] == s[0]);
        assert(s.push(x).drop_first() =~= s.drop_first().push(x));
        assert(sum_plays(s.push(x)) == s[0].plays() + sum_plays(s.drop_first().push(x)));
        assert(sum_plays(s) == s[0].plays() + sum_plays(s.drop_first()));
    }
}

/// No node records more plays than the whole sequence together.
proof fn lemma_sum_plays_le_elem(s: Seq<MusicDir>, i: int)
    requires
        0 <= i < s.len(),
    ensures
        s[i].plays() <= sum_plays(s),
        sum_plays(s) >= 0,
    decreases s.len(),
{
    lemma_sum_plays_nonneg(s);
    if i == 0 {
        lemma_sum_plays_nonneg(s.drop_first());
    } else {
        lemma_sum_plays_le_elem(s.drop_first(), i - 1);
    }
}

/// Play sums are never negative.
proof fn lemma_sum_plays_nonneg(s: Seq<MusicDir>)
    ensures
        sum_plays(s) >= 0,
    decreases s.len(),
{
    if s.len() > 0 {
        lemma_sum_plays_nonneg(s.drop_first());
    }
}

/// Replacing one node changes the play sum by the difference.
proof fn lemma_sum_plays_update(s: Seq<MusicDir>, i: int, x: MusicDir)
    requires
        0 <= i < s.len(),
    ensures
        sum_plays(s.update(i, x)) == sum_plays(s) - s[i].plays() + x.plays(),
    decreases s.len(),
{
    if i == 0 {
        assert(s.update(0, x).drop_first() =~= s.drop_first());
    } else {
        lemma_sum_plays_update(s.drop_first(), i - 1, x);
        assert(s.update(i, x).drop_first() =~= s.drop_first().update(i - 1, x));
    }
}

/// Replacing one node changes the track sum by the difference.
proof fn lemma_sum_subtree_tracks_update(s: Seq<MusicDir>, i: int, x: MusicDir)
    requires
        0 <= i < s.len(),
    ensures
        sum_subtree_tracks(s.update(i, x)) == sum_subtree_tracks(s) - s[i].subtree_tracks
            + x.subtree_tracks,
    decreases s.len(),
{
    if i == 0 {
        assert(s.update(0, x).drop_first() =~= s.drop_first());
    } else {
        lemma_sum_subtree_tracks_update(s.drop_first(), i - 1, x);
        assert(s.update(i, x).drop_first() =~= s.drop_first().update(i - 1, x));
    }
}

/// Among non-empty children there is always one with a minimal played-factor.
proof fn lemma_min_child_exists(s: Seq<MusicDir>)
    requires
        s.len() > 0,
        forall|i: int| 0 <= i < s.len() ==> (#[trigger] s[i]).subtree_tracks >= 1,
    ensures
        exists|i: int| #[trigger] min_factor_in(s, i),
    decreases s.len(),
{
    if s.len() == 1 {
        assert(min_factor_in(s, 0));
    } else {
        let t = s.drop_last();
        lemma_min_child_exists(t);
        let m = choose|i: int| #[trigger] min_factor_in(t, i);
        let l = s.len() - 1;
        assert(forall|j: int| 0 <= j < t.len() ==> t[j] == s[j]);
        if factor_le(
            s[l].plays(),
            s[l].subtree_tracks as int,
            s[m].plays(),
            s[m].subtree_tracks as int,
        ) {
            assert forall|j: int| 0 <= j < s.len() implies factor_le(
                s[l].plays(),
                s[l].subtree_tracks as int,
                (#[trigger] s[j]).plays(),
                s[j].subtree_tracks as int,
            ) by {
                if j < l {
                    assert(factor_le(
                        s[m].plays(),
                        s[m].subtree_tracks as int,
                        s[j].plays(),
                        s[j].subtree_tracks as int,
                    ));
                    lemma_factor_le_trans(
                        s[l].plays(),
                        s[l].subtree_tracks as int,
                        s[m].plays(),
                        s[m].subtree_tracks as int,
                        s[j].plays(),
                        s[j].subtree_tracks as int,
                    );
                }
            }
            assert(min_factor_in(s, l));
        } else {
            assert forall|j: int| 0 <= j < s.len() implies factor_le(
                s[m].plays(),
                s[m].subtree_tracks as int,
                (#[trigger] s[j]).plays(),
                s[j].subtree_tracks as int,
            ) by {
                if j == l {
                    assert(factor_le(
                        s[m].plays(),
                        s[m].subtree_tracks as int,
                        s[l].plays(),
                        s[l].subtree_tracks as int,
                    ));
                }
            }
            assert(min_factor_in(s, m));
        }
    }
}

/// The path names a track that exists in the tree: it runs from this node's
/// name through existing children down to one of some node's own track
/// files.
pub open spec fn is_track_path(d: MusicDir, path: Seq<String>) -> bool
    decreases d,
{
    &&& path.len() >= 2
    &&& path[0] == d.name
    &&& {
        ||| (path.len() == 2 && d.local_track_names@.contains(path[1]))
        ||| exists|i: int|
            0 <= i < d.sub_dirs@.len() && is_track_path(
                #[trigger] d.sub_dirs@[i],
                path.drop_first(),
            )
    }
}

/// A fair selection moves only play counters, so the same paths name tracks
/// before and after it.
pub proof fn lemma_fair_selection_keeps_track_paths(
    pre: MusicDir,
    post: MusicDir,
    sel: Seq<String>,
    q: Seq<String>,
)
    requires
        fair_selection(pre, post, sel),
    ensures
        is_track_path(pre, q) <==> is_track_path(post, q),
    decreases pre,
{
    if fair_local_step(pre, post, sel) {
        assert(post.sub_dirs == pre.sub_dirs);
        assert(post.local_track_names == pre.local_track_names);
        assert(post.name == pre.name);
    } else {
        let i0 = choose|i: int|
            0 <= i < pre.sub_dirs@.len() && #[trigger] fair_child_frame(pre, post, i) && sel.len()
                >= 1 && sel[0] == pre.name && fair_selection(
                pre.sub_dirs@[i],
                post.sub_dirs@[i],
                sel.drop_first(),
            );
        lemma_fair_selection_keeps_track_paths(
            pre.sub_dirs@[i0],
            post.sub_dirs@[i0],
            sel.drop_first(),
            q.drop_first(),
        );
        if is_track_path(pre, q) {
            if !(q.len() == 2 && pre.local_track_names@.contains(q[1])) {
                let j = choose|j: int|
                    0 <= j < pre.sub_dirs@.len() && is_track_path(
                        #[trigger] pre.sub_dirs@[j],
                        q.drop_first(),
                    );
                if j != i0 {
                    assert(post.sub_dirs@[j] == pre.sub_dirs@[j]);
                }
                assert(is_track_path(post.sub_dirs@[j], q.drop_first()));
            }
            assert(is_track_path(post, q));
        }
        if is_track_path(post, q) {
            if !(q.len() == 2 && post.local_track_names@.contains(q[1])) {
                let j = choose|j: int|
                    0 <= j < post.sub_dirs@.len() && is_track_path(
                        #[trigger] post.sub_dirs@[j],
                        q.drop_first(),
                    );
                if j != i0 {
                    assert(pre.sub_dirs@[j] == post.sub_dirs@[j]);
                }
                assert(is_track_path(pre.sub_dirs@[j], q.drop_first()));
            }
            assert(is_track_path(pre, q));
        }
    }
}

/// `trees` records the tree before and after each selection: one fair
/// selection per path, each starting from the tree the previous one left.
pub open spec fn fair_selection_steps(trees: Seq<MusicDir>, paths: Seq<Seq<String>>) -> bool {
    &&& trees.len() == paths.len() + 1
    &&& forall|i: int|
        0 <= i < paths.len() ==> fair_selection(trees[i], trees[i + 1], #[trigger] paths[i])
}

/// The paths lead the tree from `pre` to `post` by one fair selection each;
/// with no path at all the tree is untouched.
pub open spec fn fair_selection_chain(pre: MusicDir, post: MusicDir, paths: Seq<Seq<String>>) -> bool {
    exists|trees: Seq<MusicDir>|
        #[trigger] fair_selection_steps(trees, paths) && trees.first() == pre && trees.last()
            == post
}

/// Within a run of fair selections, any path naming a track at step `j`
/// names one in the tree the run started from.
proof fn lemma_steps_keep_track_paths(
    trees: Seq<MusicDir>,
    paths: Seq<Seq<String>>,
    j: int,
    q: Seq<String>,
)
    requires
        fair_selection_steps(trees, paths),
        0 <= j < trees.len(),
        is_track_path(trees[j], q),
    ensures
        is_track_path(trees[0], q),
    decreases j,
{
    if j > 0 {
        lemma_fair_selection_keeps_track_paths(trees[j - 1], trees[j], paths[j - 1], q);
        lemma_steps_keep_track_paths(trees, paths, j - 1, q);
    }
}

/// Law: every path in a fair chain names a track that exists in the tree the
/// chain started from — a refill never asks the loader for anything the root
/// directory does not hold.
pub proof fn lemma_chain_loads_existing_tracks(
    pre: MusicDir,
    post: MusicDir,
    paths: Seq<Seq<String>>,
    k: int,
)
    requires
        fair_selection_chain(pre, post, paths),
        0 <= k < paths.len(),
    ensures
        is_track_path(pre, paths[k]),
{
    let trees = choose|t: Seq<MusicDir>|
        #[trigger] fair_selection_steps(t, paths) && t.first() == pre && t.last() == post;
    assert(fair_selection(trees[k], trees[k + 1], paths[k]));
    lemma_fair_selection_is_track(trees[k], trees[k + 1], paths[k]);
    lemma_steps_keep_track_paths(trees, paths, k, paths[k]);
}

/// Law: a fair selection never invents a track; the path it returns names a
/// track file that exists in the tree it selected from.
pub proof fn lemma_fair_selection_is_track(pre: MusicDir, post: MusicDir, path: Seq<String>)
    requires
        fair_selection(pre, post, path),
    ensures
        is_track_path(pre, path),
    decreases pre,
{
    if fair_local_step(pre, post, path) {
        let k = choose|k: int|
            0 <= k < pre.local_track_names@.len() && path[1] == pre.local_track_names@[k];
        assert(pre.local_track_names@.contains(path[1]));
        assert(is_track_path(pre, path));
    } else {
        let i = choose|i: int|
            0 <= i < pre.sub_dirs@.len() && #[trigger] fair_child_frame(pre, post, i) && path.len()
                >= 1 && path[0] == pre.name && fair_selection(
                pre.sub_dirs@[i],
                post.sub_dirs@[i],
                path.drop_first(),
            );
        lemma_fair_selection_is_track(pre.sub_dirs@[i], post.sub_dirs@[i], path.drop_first());
        reveal_with_fuel(is_track_path, 2);
        assert(path.drop_first().len() >= 2);
        assert(path.len() >= 2);
        assert(is_track_path(pre, path));
    }
}

/// Law: building from a listing without any track always fails with `Empty`,
/// given what `build` ensures of its result.
pub proof fn lemma_build_empty_listing(l: DirListing, r: Result<MusicDir, MusicDirCreationError>)
    requires
        listing_track_count(l) == 0,
        match r {
            Ok(m) => m.wf() && builds_to(l, m),
            Err(e) => match e {
                MusicDirCreationError::Empty => listing_track_count(l) == 0,
                MusicDirCreationError::Unknown => listing_track_count(l) > u64::MAX,
                _ => false,
            },
        },
    ensures
        r == Err::<MusicDir, MusicDirCreationError>(MusicDirCreationError::Empty),
{
    match r {
        Ok(m) => {
            assert(m.subtree_tracks == 0);
            assert(false);
        },
        Err(e) => {},
    }
}

/// One more listing with tracks, one more built node.
proof fn lemma_children_build_to_push_kept(
    ds: Seq<DirListing>,
    ms: Seq<MusicDir>,
    dn: DirListing,
    mn: MusicDir,
)
    requires
        children_build_to(ds, ms),
        listing_track_count(dn) > 0,
        builds_to(dn, mn),
    ensures
        children_build_to(ds.push(dn), ms.push(mn)),
    decreases ds.len(),
{
    reveal_with_fuel(children_build_to, 3);
    if ds.len() == 0 {
        assert(ds.push(dn)[0] == dn);
        assert(ms.push(mn)[0] == mn);
        assert(ds.push(dn).drop_first() =~= Seq::<DirListing>::empty());
        assert(ms.push(mn).drop_first() =~= Seq::<MusicDir>::empty());
    } else if listing_track_count(ds[0]) > 0 {
        lemma_children_build_to_push_kept(ds.drop_first(), ms.drop_first(), dn, mn);
        assert(ds.push(dn)[0] == ds[0]);
        assert(ms.push(mn)[0] == ms[0]);
        assert(ds.push(dn).drop_first() =~= ds.drop_first().push(dn));
        assert(ms.push(mn).drop_first() =~= ms.drop_first().push(mn));
    } else {
        lemma_children_build_to_push_kept(ds.drop_first(), ms, dn, mn);
        assert(ds.push(dn)[0] == ds[0]);
        assert(ds.push(dn).drop_first() =~= ds.drop_first().push(dn));
    }
}

/// One more listing without tracks leaves the built nodes as they are.
proof fn lemma_children_build_to_push_skipped(
    ds: Seq<DirListing>,
    ms: Seq<MusicDir>,
    dn: DirListing,
)
    requires
        children_build_to(ds, ms),
        listing_track_count(dn) == 0,
    ensures
        children_build_to(ds.push(dn), ms),
    decreases ds.len(),
{
    reveal_with_fuel(children_build_to, 3);
    if ds.len() == 0 {
        assert(ds.push(dn)[0] == dn);
        assert(ds.push(dn).drop_first() =~= Seq::<DirListing>::empty());
    } else if listing_track_count(ds[0]) > 0 {
        lemma_children_build_to_push_skipped(ds.drop_first(), ms.drop_first(), dn);
        assert(ds.push(dn)[0] == ds[0]);
        assert(ds.push(dn).drop_first() =~= ds.drop_first().push(dn));
    } else {
        lemma_children_build_to_push_skipped(ds.drop_first(), ms, dn);
        assert(ds.push(dn)[0] == ds[0]);
        assert(ds.push(dn).drop_first() =~= ds.drop_first().push(dn));
    }
}

impl MusicDir {
    /// Builds the music tree for a directory listing: eligible track files
    /// kept in order, subdirectories without any track pruned, and all play
    /// counters starting at zero. Fails with `Empty` when the listing holds
    /// no track anywhere, and with `Unknown` in the out-of-memory-scale case
    /// that the track count overflows the counter width.
    pub fn build(listing: &DirListing) -> (r: Result<MusicDir, MusicDirCreationError>)
        ensures
            match r {
                Ok(m) => m.wf() && builds_to(*listing, m),
                Err(e) => match e {
                    MusicDirCreationError::Empty => listing_track_count(*listing) == 0,
                    MusicDirCreationError::Unknown => listing_track_count(*listing) > u64::MAX,
                    _ => false,
                },
            },
        decreases *listing,
    {
        // Keep the eligible track files, in file order.
        let mut tracks: Vec<String> = Vec::new();
        let mut fi: usize = 0;
        while fi < listing.file_names.len()
            invariant
                fi <= listing.file_names@.len(),
                tracks@ == local_tracks_of(listing.file_names@.take(fi as int)),
            decreases listing.file_names@.len() - fi,
        {
            let f = &listing.file_names[fi];
            proof {
                lemma_tracks_take_step(listing.file_names@, fi as int);
            }
            if is_track_file(f.as_str()) {
                tracks.push(f.clone());
            }
            fi += 1;
        }
        proof {
            assert(listing.file_names@.take(listing.file_names@.len() as int)
                =~= listing.file_names@);
        }

        // Build the subdirectories, pruning the ones without tracks.
        let mut children: Vec<MusicDir> = Vec::new();
        let mut child_total: u64 = 0;
        let mut di: usize = 0;
        while di < listing.sub_dirs.len()
            invariant
                di <= listing.sub_dirs@.len(),
                children_build_to(listing.sub_dirs@.take(di as int), children@),
                forall|i: int| 0 <= i < children@.len() ==> (#[trigger] children@[i]).wf(),
                child_total as int == listings_track_count(listing.sub_dirs@.take(di as int)),
                sum_subtree_tracks(children@) == child_total as int,
                sum_plays(children@) == 0,
            decreases listing.sub_dirs@.len() - di,
        {
            proof {
                assert(decreases_to!(*listing => listing.sub_dirs@[di as int]));
                lemma_listings_count_take_step(listing.sub_dirs@, di as int);
                assert(listing.sub_dirs@.take(di as int + 1) =~= listing.sub_dirs@.take(
                    di as int,
                ).push(listing.sub_dirs@[di as int]));
            }
            let sub = &listing.sub_dirs[di];
            match Self::build(sub) {
                Ok(m) => {
                    match child_total.checked_add(m.subtree_tracks) {
                        Some(new_total) => {
                            proof {
                                lemma_sum_subtree_tracks_push(children@, m);
                                lemma_sum_plays_push(children@, m);
                                assert(m.subtree_tracks >= 1);
                                lemma_children_build_to_push_kept(
                                    listing.sub_dirs@.take(di as int),
                                    children@,
                                    listing.sub_dirs@[di as int],
                                    m,
                                );
                            }
                            child_total = new_total;
                            children.push(m);
                        },
                        None => {
                            proof {
                                lemma_listings_count_take_le(listing.sub_dirs@, di as int + 1);
                            }
                            return Err(MusicDirCreationError::Unknown);
                        },
                    }
                },
                Err(e) => {
                    match e {
                        MusicDirCreationError::Empty => {
                            // A subdirectory without tracks is excluded.
                            proof {
                                lemma_children_build_to_push_skipped(
                                    listing.sub_dirs@.take(di as int),
                                    children@,
                                    listing.sub_dirs@[di as int],
                                );
                            }
                        },
                        _ => {
                            // Only the overflow kind can reach here, and then
                            // the whole listing overflows as well.
                            proof {
                                lemma_listings_count_take_le(listing.sub_dirs@, di as int + 1);
                            }
                            return Err(MusicDirCreationError::Unknown);
                        },
                    }
                },
            }
            di += 1;
        }
        proof {
            assert(listing.sub_dirs@.take(listing.sub_dirs@.len() as int) =~= listing.sub_dirs@);
        }

        let local_len: u64 = tracks.len() as u64;
        let total = match local_len.checked_add(child_total) {
            Some(t) => t,
            None => {
                return Err(MusicDirCreationError::Unknown);
            },
        };
        if total == 0 {
            Err(MusicDirCreationError::Empty)
        } else {
            let m = MusicDir {
                name: listing.name.clone(),
                local_track_names: tracks,
                sub_dirs: children,
                local_plays: 0,
                sub_plays: 0,
                subtree_tracks: total,
            };
            proof {
                assert(builds_to(*listing, m));
            }
            Ok(m)
        }
    }
}

/// A mutable borrow of one element of a node vector.
fn vec_index_mut(v: &mut Vec<MusicDir>, i: usize) -> (element: &mut MusicDir)
    requires
        i < old(v).len(),
    ensures
        *element == old(v)@[i as int],
        final(v)@ == old(v)@.update(i as int, *final(element)),
{
    &mut v[i]
}

/// A selection that ends here is fair: no child ties the minimum
/// played-factor, a local track was picked, and only the local counter moved.
proof fn lemma_fair_selection_local(pre: MusicDir, post: MusicDir, path: Seq<String>)
    requires
        fair_local_step(pre, post, path),
    ensures
        fair_selection(pre, post, path),
{
    reveal_with_fuel(fair_selection, 2);
}

/// A selection that descends into a candidate child fairly, framed as this
/// level requires, is fair as a whole.
proof fn lemma_fair_selection_child(pre: MusicDir, post: MusicDir, path: Seq<String>, i: int)
    requires
        0 <= i < pre.sub_dirs@.len(),
        fair_child_frame(pre, post, i),
        path.len() >= 1,
        path[0] == pre.name,
        fair_selection(pre.sub_dirs@[i], post.sub_dirs@[i], path.drop_first()),
    ensures
        fair_selection(pre, post, path),
{
    reveal_with_fuel(fair_selection, 2);
}

impl MusicDir {
    /// Whether this node has tracks of its own.
    pub fn has_tracks(&self) -> (b: bool)
        ensures
            b == (self.local_track_names@.len() > 0),
    {
        self.local_track_names.len() > 0
    }

    /// Whether this node has subdirectories.
    pub fn has_sub_dirs(&self) -> (b: bool)
        ensures
            b == (self.sub_dirs@.len() > 0),
    {
        self.sub_dirs.len() > 0
    }

    /// Whether this node has neither tracks nor subdirectories.
    pub fn is_empty(&self) -> (b: bool)
        ensures
            b == (self.local_track_names@.len() == 0 && self.sub_dirs@.len() == 0),
    {
        self.local_track_names.len() == 0 && self.sub_dirs.len() == 0
    }

    /// The children tying the minimum played-factor, competing against the
    /// local tracks: exactly the children that a fair selection may descend
    /// into. When none qualifies the selection must pick a local track, and
    /// there is always one then.
    fn candidate_children(&self) -> (cands: Vec<usize>)
        requires
            self.wf(),
        ensures
            forall|k: int|
                0 <= k < cands@.len() ==> self.is_candidate_child(#[trigger] cands@[k] as int),
            cands@.len() == 0 ==> (forall|i: int| !self.is_candidate_child(i)),
            cands@.len() == 0 ==> self.local_track_names@.len() > 0,
    {
        let n = self.sub_dirs.len();
        let local_len = self.local_track_names.len();
        let mut cands: Vec<usize> = Vec::new();
        let mut j: usize = 0;
        while j < n
            invariant
                self.wf(),
                n == self.sub_dirs@.len(),
                local_len == self.local_track_names@.len(),
                j <= n,
                forall|k: int|
                    0 <= k < cands@.len() ==> self.is_candidate_child(#[trigger] cands@[k] as int),
                cands@.len() == 0 ==> (forall|jj: int|
                    0 <= jj < j ==> !self.is_candidate_child(jj)),
            decreases n - j,
        {
            proof {
                lemma_sum_plays_le_elem(self.sub_dirs@, j as int);
            }
            let cj = &self.sub_dirs[j];
            let pj: u64 = cj.local_plays + cj.sub_plays;
            let sj: u64 = cj.subtree_tracks;
            let mut is_min: bool = true;
            let mut k: usize = 0;
            while k < n
                invariant
                    self.wf(),
                    n == self.sub_dirs@.len(),
                    j < n,
                    k <= n,
                    pj == self.sub_dirs@[j as int].plays(),
                    sj == self.sub_dirs@[j as int].subtree_tracks,
                    is_min == (forall|kk: int|
                        0 <= kk < k ==> factor_le(
                            pj as int,
                            sj as int,
                            (#[trigger] self.sub_dirs@[kk]).plays(),
                            self.sub_dirs@[kk].subtree_tracks as int,
                        )),
                decreases n - k,
            {
                proof {
                    lemma_sum_plays_le_elem(self.sub_dirs@, k as int);
                }
                let ck = &self.sub_dirs[k];
                let le = factor_le_exec(pj, sj, ck.local_plays + ck.sub_plays, ck.subtree_tracks);
                is_min = is_min && le;
                k += 1;
            }
            let qualifies = if is_min {
                if local_len > 0 {
                    factor_le_exec(pj, sj, self.local_plays, local_len as u64)
                } else {
                    true
                }
            } else {
                false
            };
            if qualifies {
                cands.push(j);
                proof {
                    assert(min_factor_in(self.sub_dirs@, j as int));
                    assert(self.is_candidate_child(j as int));
                }
            } else {
                proof {
                    assert(!self.is_candidate_child(j as int));
                }
            }
            j += 1;
        }
        proof {
            if cands@.len() == 0 && self.local_track_names@.len() == 0 {
                if self.sub_dirs@.len() == 0 {
                    assert(sum_subtree_tracks(self.sub_dirs@) == 0);
                    assert(false);
                } else {
                    assert forall|i: int|
                        0 <= i < self.sub_dirs@.len() implies (#[trigger] self.sub_dirs@[i]).subtree_tracks
                        >= 1 by {
                        assert(self.sub_dirs@[i].wf());
                    }
                    lemma_min_child_exists(self.sub_dirs@);
                    let i = choose|i: int| #[trigger] min_factor_in(self.sub_dirs@, i);
                    assert(self.is_candidate_child(i));
                    assert(false);
                }
            }
        }
        cands
    }

    /// Selects the next track fairly: walks from this node towards the
    /// least-played branch (ties between branches, and between a branch and
    /// the local tracks, resolved by the random number generator and in the
    /// branch's favour respectively), bumps the play counters along the walk,
    /// and returns the path from this node's name down to the chosen track
    /// file name.
    pub fn next_track(&mut self) -> (path: Vec<String>)
        requires
            old(self).wf(),
            old(self).plays() < u64::MAX,
        ensures
            final(self).wf(),
            final(self).plays() == old(self).plays() + 1,
            final(self).subtree_tracks == old(self).subtree_tracks,
            final(self).name == old(self).name,
            final(self).local_track_names == old(self).local_track_names,
            fair_selection(*old(self), *final(self), path@),
        decreases *old(self),
    {
        let cands = self.candidate_children();
        if cands.len() == 0 {
            // No child ties the minimum: play one of the local tracks.
            let t = random_index(self.local_track_names.len());
            let track = self.local_track_names[t].clone();
            self.local_plays = self.local_plays + 1;
            let mut path: Vec<String> = Vec::new();
            path.push(self.name.clone());
            path.push(track);
            proof {
                assert(fair_local_step(*old(self), *self, path@));
                lemma_fair_selection_local(*old(self), *self, path@);
            }
            path
        } else {
            // Descend into one of the children tying the minimum.
            let ci = cands[random_index(cands.len())];
            proof {
                assert(old(self).is_candidate_child(ci as int));
                lemma_sum_plays_le_elem(old(self).sub_dirs@, ci as int);
            }
            self.sub_plays = self.sub_plays + 1;
            proof {
                assert(decreases_to!(*old(self) => old(self).sub_dirs@[ci as int]));
            }
            let child = vec_index_mut(&mut self.sub_dirs, ci);
            let mut path = child.next_track();
            let ghost sub_path_view = path@;
            path.insert(0, self.name.clone());
            proof {
                let pre = *old(self);
                let post = *self;
                assert(path@.drop_first() =~= sub_path_view);
                lemma_sum_plays_update(
                    pre.sub_dirs@,
                    ci as int,
                    post.sub_dirs@[ci as int],
                );
                lemma_sum_subtree_tracks_update(
                    pre.sub_dirs@,
                    ci as int,
                    post.sub_dirs@[ci as int],
                );
                assert(fair_child_frame(pre, post, ci as int));
                lemma_fair_selection_child(pre, post, path@, ci as int);
                assert(post.wf());
            }
            path
        }
    }
}

/// Whether a file name ends in the track extension.
pub fn is_track_file(name: &str) -> (b: bool)
    ensures
        b == is_track_name(name@),
{
    let n = name.unicode_len();
    if n <= 4 {
        return false;
    }
    name.get_char(n - 4) == '.' && name.get_char(n - 3) == 'm' && name.get_char(n - 2) == 'p'
        && name.get_char(n - 1) == '3'
}

/// Relies on `rand::random::<u64>`: a value from the thread-local random
/// number generator; nothing is promised of it.
#[verifier::external_body]
fn random_u64() -> u64 {
    rand::random::<u64>()
}

/// An arbitrary index below `len`, chosen by the random number generator.
fn random_index(len: usize) -> (i: usize)
    requires
        len > 0,
    ensures
        i < len,
{
    (random_u64() as usize) % len
}

/// Played-factor comparison on machine integers.
fn factor_le_exec(p1: u64, s1: u64, p2: u64, s2: u64) -> (b: bool)
    ensures
        b == factor_le(p1 as int, s1 as int, p2 as int, s2 as int),
{
    proof {
        assert((p1 as int) * (s2 as int) <= u128::MAX && (p2 as int) * (s1 as int) <= u128::MAX)
            by (nonlinear_arith)
            requires
                p1 <= u64::MAX,
                s2 <= u64::MAX,
                p2 <= u64::MAX,
                s1 <= u64::MAX,
        ;
    }
    (p1 as u128) * (s2 as u128) <= (p2 as u128) * (s1 as u128)
}

} // verus!
