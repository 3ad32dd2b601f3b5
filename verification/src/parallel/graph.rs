//! The story dependency graph: readiness, cycle detection, and optional
//! edge inference from overlapping target files.

use vstd::prelude::*;

use crate::collections::StringSet;
use crate::parallel::story::{files_overlap, spec_story_in_prefix, story_eq, StoryNode};

verus! {

/// Whether no story of the set declares any dependency.
pub open spec fn spec_no_deps(ss: Seq<StoryNode>) -> bool {
    forall|i: int| 0 <= i < ss.len() ==> (#[trigger] ss[i]).depends_on@.len() == 0
}

/// Whether no two distinct stories of the set have overlapping target
/// files.
pub open spec fn spec_no_overlaps(ss: Seq<StoryNode>) -> bool {
    forall|a: int, b: int| 0 <= a < ss.len() && 0 <= b < ss.len() && a != b
        ==> !crate::parallel::story::spec_files_overlap(
        (#[trigger] ss[a]).target_files@,
        (#[trigger] ss[b]).target_files@,
    )
}

/// Whether every dependency of `s` is contained in `completed`.
pub open spec fn spec_deps_satisfied(s: StoryNode, completed: StringSet) -> bool {
    forall|j: int| 0 <= j < s.depends_on@.len() ==> completed.spec_contains(
        (#[trigger] s.depends_on@[j])@,
    )
}

/// Whether `dep` is an edge the inference rule justifies for story `i`:
/// the id of a strictly higher-priority story whose target files overlap
/// story `i`'s.
pub open spec fn spec_inferred_edge(pre: Seq<StoryNode>, i: int, dep: Seq<char>) -> bool {
    exists|a: int|
        0 <= a < pre.len() && (#[trigger] pre[a]).id@ == dep && pre[a].priority < pre[i].priority
            && crate::parallel::story::spec_files_overlap(
            pre[a].target_files@,
            pre[i].target_files@,
        )
}

/// Whether the characters `z` are the id of some story of the set.
pub open spec fn spec_is_story_id(ss: Seq<StoryNode>, z: Seq<char>) -> bool {
    exists|k: int| 0 <= k < ss.len() && (#[trigger] ss[k]).id@ == z
}

/// Pairwise distinct story ids.
pub open spec fn spec_distinct_ids(ss: Seq<StoryNode>) -> bool {
    forall|a: int, b: int| 0 <= a < b < ss.len() ==> (#[trigger] ss[a]).id@ != (
    #[trigger] ss[b]).id@
}

/// Whether some story declares a dependency naming no story of the set.
pub open spec fn spec_has_dangling(ss: Seq<StoryNode>) -> bool {
    exists|i: int, d: int|
        #![trigger ss[i].depends_on@[d]]
        0 <= i < ss.len() && 0 <= d < ss[i].depends_on@.len() && !spec_is_story_id(
            ss,
            (ss[i].depends_on@[d])@,
        )
}

/// Whether some story declares a dependency on its own id.
pub open spec fn spec_has_self_dep(ss: Seq<StoryNode>) -> bool {
    exists|i: int, d: int|
        #![trigger ss[i].depends_on@[d]]
        0 <= i < ss.len() && 0 <= d < ss[i].depends_on@.len() && (ss[i].depends_on@[d])@
            == ss[i].id@
}

/// Whether `id` appears among the dependency ids `deps`.
pub open spec fn spec_has_dep(deps: Seq<String>, id: Seq<char>) -> bool {
    exists|k: int| 0 <= k < deps.len() && (#[trigger] deps[k])@ == id
}

/// Whether `s` observably equals some element of `r`.
pub open spec fn spec_in_stories(r: Seq<StoryNode>, s: StoryNode) -> bool {
    exists|k: int| 0 <= k < r.len() && story_eq(s, #[trigger] r[k])
}

/// A dependency graph over a story set.
#[derive(Clone, Debug)]
pub struct DependencyGraph {
    /// The stories of the set.
    pub stories: Vec<StoryNode>,
}

impl DependencyGraph {
    /// A graph over copies of the given stories.
    pub fn from_stories(stories: &Vec<StoryNode>) -> (r: Self)
        ensures
            r.stories@.len() == stories@.len(),
            forall|i: int| 0 <= i < stories@.len() ==> story_eq(
                #[trigger] r.stories@[i],
                stories@[i],
            ),
            spec_no_deps(stories@) ==> spec_no_deps(r.stories@),
            spec_no_overlaps(stories@) ==> spec_no_overlaps(r.stories@),
    {
        let mut copy: Vec<StoryNode> = Vec::new();
        let mut i: usize = 0;
        while i < stories.len()
            invariant
                i <= stories@.len(),
                copy@.len() == i,
                forall|k: int| 0 <= k < i ==> story_eq(#[trigger] copy@[k], stories@[k]),
            decreases stories@.len() - i,
        {
            copy.push(stories[i].duplicate());
            i += 1;
        }
        let r = DependencyGraph { stories: copy };
        proof {
            if spec_no_deps(stories@) {
                assert forall|k: int| 0 <= k < r.stories@.len() implies (
                #[trigger] r.stories@[k]).depends_on@.len() == 0 by {
                    assert(story_eq(r.stories@[k], stories@[k]));
                }
            }
            if spec_no_overlaps(stories@) {
                assert forall|a: int, b: int|
                    0 <= a < r.stories@.len() && 0 <= b < r.stories@.len() && a != b implies
                    !crate::parallel::story::spec_files_overlap(
                    (#[trigger] r.stories@[a]).target_files@,
                    (#[trigger] r.stories@[b]).target_files@,
                ) by {
                    assert(story_eq(r.stories@[a], stories@[a]));
                    assert(story_eq(r.stories@[b], stories@[b]));
                }
            }
        }
        r
    }

    /// The story with the given id, if any.
    pub fn get_story(&self, id: &str) -> (r: Option<&StoryNode>)
        ensures
            r matches Some(s) ==> s.id@ == id@,
    {
        let mut i: usize = 0;
        while i < self.stories.len()
            invariant
                i <= self.stories@.len(),
            decreases self.stories@.len() - i,
        {
            if crate::text::str_eq(self.stories[i].id.as_str(), id) {
                return Some(&self.stories[i]);
            }
            i += 1;
        }
        None
    }

    /// Add inferred dependency edges: when a higher-priority story's target
    /// files overlap a lower-priority story's, the lower-priority story
    /// gains a dependency on the higher-priority one, unless it already
    /// declares it.
    pub fn infer_dependencies(&mut self)
        ensures
            final(self).stories@.len() == old(self).stories@.len(),
            forall|i: int|
                #![trigger final(self).stories@[i]]
                0 <= i < final(self).stories@.len() ==> final(self).stories@[i].id@ == old(
                    self,
                ).stories@[i].id@ && final(self).stories@[i].target_files@ == old(
                    self,
                ).stories@[i].target_files@ && final(self).stories@[i].priority == old(
                    self,
                ).stories@[i].priority && old(self).stories@[i].depends_on@.is_prefix_of(
                    final(self).stories@[i].depends_on@,
                ),
            forall|i: int, j: int|
                #![trigger final(self).stories@[i].depends_on@[j]]
                0 <= i < final(self).stories@.len() && old(self).stories@[i].depends_on@.len()
                    <= j < final(self).stories@[i].depends_on@.len() ==> spec_inferred_edge(
                    old(self).stories@,
                    i,
                    final(self).stories@[i].depends_on@[j]@,
                ),
            spec_no_deps(old(self).stories@) && spec_no_overlaps(old(self).stories@)
                ==> spec_no_deps(final(self).stories@),
            forall|x: int, y: int|
                0 <= x < old(self).stories@.len() && 0 <= y < old(self).stories@.len() && x != y
                    && (#[trigger] old(self).stories@[x]).priority < (
                #[trigger] old(self).stories@[y]).priority
                    && crate::parallel::story::spec_files_overlap(
                    old(self).stories@[x].target_files@,
                    old(self).stories@[y].target_files@,
                ) ==> spec_has_dep(final(self).stories@[y].depends_on@, old(self).stories@[x].id@),
    {
        let n = self.stories.len();
        let mut a: usize = 0;
        while a < n
            invariant
                a <= n,
                n == self.stories@.len(),
                self.stories@.len() == old(self).stories@.len(),
                forall|i: int| 0 <= i < self.stories@.len() ==> (#[trigger] self.stories@[i]).id@
                    == old(self).stories@[i].id@,
                forall|i: int| 0 <= i < self.stories@.len() ==> (
                #[trigger] self.stories@[i]).target_files@ == old(self).stories@[i].target_files@,
                forall|i: int| 0 <= i < self.stories@.len() ==> (
                #[trigger] self.stories@[i]).priority == old(self).stories@[i].priority,
                forall|i: int| 0 <= i < self.stories@.len() ==> old(
                    self,
                ).stories@[i].depends_on@.is_prefix_of((#[trigger] self.stories@[i]).depends_on@),
                forall|i: int, j: int|
                    #![trigger self.stories@[i].depends_on@[j]]
                    0 <= i < self.stories@.len() && old(self).stories@[i].depends_on@.len() <= j
                        < self.stories@[i].depends_on@.len() ==> spec_inferred_edge(
                        old(self).stories@,
                        i,
                        self.stories@[i].depends_on@[j]@,
                    ),
                spec_no_deps(old(self).stories@) && spec_no_overlaps(old(self).stories@)
                    ==> spec_no_deps(self.stories@),
                forall|x: int, y: int|
                    0 <= x < a && 0 <= y < n && x != y && (
                    #[trigger] old(self).stories@[x]).priority < (
                    #[trigger] old(self).stories@[y]).priority
                        && crate::parallel::story::spec_files_overlap(
                        old(self).stories@[x].target_files@,
                        old(self).stories@[y].target_files@,
                    ) ==> spec_has_dep(self.stories@[y].depends_on@, old(self).stories@[x].id@),
            decreases n - a,
        {
            let mut b: usize = 0;
            while b < n
                invariant
                    a < n,
                    b <= n,
                    n == self.stories@.len(),
                    self.stories@.len() == old(self).stories@.len(),
                    forall|i: int| 0 <= i < self.stories@.len() ==> (
                    #[trigger] self.stories@[i]).id@ == old(self).stories@[i].id@,
                    forall|i: int| 0 <= i < self.stories@.len() ==> (
                    #[trigger] self.stories@[i]).target_files@ == old(
                        self,
                    ).stories@[i].target_files@,
                    forall|i: int| 0 <= i < self.stories@.len() ==> (
                    #[trigger] self.stories@[i]).priority == old(self).stories@[i].priority,
                    forall|i: int| 0 <= i < self.stories@.len() ==> old(
                        self,
                    ).stories@[i].depends_on@.is_prefix_of(
                        (#[trigger] self.stories@[i]).depends_on@,
                    ),
                    forall|i: int, j: int|
                        #![trigger self.stories@[i].depends_on@[j]]
                        0 <= i < self.stories@.len() && old(self).stories@[i].depends_on@.len()
                            <= j < self.stories@[i].depends_on@.len() ==> spec_inferred_edge(
                            old(self).stories@,
                            i,
                            self.stories@[i].depends_on@[j]@,
                        ),
                    spec_no_deps(old(self).stories@) && spec_no_overlaps(old(self).stories@)
                        ==> spec_no_deps(self.stories@),
                    forall|x: int, y: int|
                        0 <= x < a && 0 <= y < n && x != y && (
                        #[trigger] old(self).stories@[x]).priority < (
                        #[trigger] old(self).stories@[y]).priority
                            && crate::parallel::story::spec_files_overlap(
                            old(self).stories@[x].target_files@,
                            old(self).stories@[y].target_files@,
                        ) ==> spec_has_dep(self.stories@[y].depends_on@, old(self).stories@[x].id@),
                    forall|y: int|
                        0 <= y < b && y != a && old(self).stories@[a as int].priority < (
                        #[trigger] old(self).stories@[y]).priority
                            && crate::parallel::story::spec_files_overlap(
                            old(self).stories@[a as int].target_files@,
                            old(self).stories@[y].target_files@,
                        ) ==> spec_has_dep(
                            self.stories@[y].depends_on@,
                            old(self).stories@[a as int].id@,
                        ),
                decreases n - b,
            {
                if a != b && self.stories[a].priority < self.stories[b].priority {
                    if files_overlap(&self.stories[a].target_files, &self.stories[b].target_files) {
                        proof {
                            if spec_no_deps(old(self).stories@) && spec_no_overlaps(
                                old(self).stories@,
                            ) {
                                assert(self.stories@[a as int].target_files@ == old(
                                    self,
                                ).stories@[a as int].target_files@);
                                assert(self.stories@[b as int].target_files@ == old(
                                    self,
                                ).stories@[b as int].target_files@);
                                assert(!crate::parallel::story::spec_files_overlap(
                                    old(self).stories@[a as int].target_files@,
                                    old(self).stories@[b as int].target_files@,
                                ));
                                assert(false);
                            }
                        }
                        let dep_id = self.stories[a].id.clone();
                        let mut already = false;
                        let mut d: usize = 0;
                        while d < self.stories[b].depends_on.len()
                            invariant
                                b < self.stories@.len(),
                                d <= self.stories@[b as int].depends_on@.len(),
                                already ==> spec_has_dep(
                                    self.stories@[b as int].depends_on@,
                                    dep_id@,
                                ),
                            decreases self.stories@[b as int].depends_on@.len() - d,
                        {
                            if crate::text::str_eq(
                                self.stories[b].depends_on[d].as_str(),
                                dep_id.as_str(),
                            ) {
                                already = true;
                            }
                            d += 1;
                        }
                        if !already {
                            let ghost pre_stories = self.stories@;
                            let target = &mut self.stories[b];
                            target.depends_on.push(dep_id);
                            proof {
                                let post = self.stories@;
                                assert(post[b as int].depends_on@ =~= pre_stories[
                                    b as int
                                ].depends_on@.push(dep_id));
                                assert forall|i: int|
                                    0 <= i < post.len() implies old(
                                    self,
                                ).stories@[i].depends_on@.is_prefix_of(
                                    (#[trigger] post[i]).depends_on@,
                                ) by {
                                    if i == b {
                                        let base = old(self).stories@[i].depends_on@;
                                        assert(base.is_prefix_of(pre_stories[i].depends_on@));
                                        assert(pre_stories[i].depends_on@.is_prefix_of(
                                            post[i].depends_on@,
                                        )) by {
                                            assert(post[i].depends_on@.subrange(
                                                0,
                                                pre_stories[i].depends_on@.len() as int,
                                            ) =~= pre_stories[i].depends_on@);
                                        }
                                        assert(base =~= post[i].depends_on@.subrange(
                                            0,
                                            base.len() as int,
                                        ));
                                    } else {
                                        assert(post[i] == pre_stories[i]);
                                    }
                                }
                                assert forall|i: int, j: int|
                                    #![trigger post[i].depends_on@[j]]
                                    0 <= i < post.len() && old(self).stories@[
                                        i
                                    ].depends_on@.len() <= j < post[i].depends_on@.len() implies
                                    spec_inferred_edge(
                                    old(self).stories@,
                                    i,
                                    post[i].depends_on@[j]@,
                                ) by {
                                    if i == b && j == post[i].depends_on@.len() - 1 {
                                        assert(post[i].depends_on@[j]@ == old(self).stories@[
                                            a as int
                                        ].id@);
                                        assert(old(self).stories@[a as int].priority < old(
                                            self,
                                        ).stories@[b as int].priority);
                                        assert(crate::parallel::story::spec_files_overlap(
                                            old(self).stories@[a as int].target_files@,
                                            old(self).stories@[b as int].target_files@,
                                        ));
                                    } else if i == b {
                                        assert(post[i].depends_on@[j] == pre_stories[
                                            i
                                        ].depends_on@[j]);
                                    } else {
                                        assert(post[i] == pre_stories[i]);
                                    }
                                }
                                assert forall|x: int, y: int|
                                    0 <= x < a && 0 <= y < n && x != y && (
                                    #[trigger] old(self).stories@[x]).priority < (
                                    #[trigger] old(self).stories@[y]).priority
                                        && crate::parallel::story::spec_files_overlap(
                                        old(self).stories@[x].target_files@,
                                        old(self).stories@[y].target_files@,
                                    ) implies spec_has_dep(
                                    post[y].depends_on@,
                                    old(self).stories@[x].id@,
                                ) by {
                                    assert(spec_has_dep(
                                        pre_stories[y].depends_on@,
                                        old(self).stories@[x].id@,
                                    ));
                                    let k = choose|k: int|
                                        0 <= k < pre_stories[y].depends_on@.len() && (
                                        #[trigger] pre_stories[y].depends_on@[k])@ == old(
                                            self,
                                        ).stories@[x].id@;
                                    if y == b {
                                        assert(post[y].depends_on@[k] == pre_stories[
                                            y
                                        ].depends_on@[k]);
                                    } else {
                                        assert(post[y] == pre_stories[y]);
                                    }
                                }
                                assert forall|y: int|
                                    0 <= y < b && y != a && old(self).stories@[
                                        a as int
                                    ].priority < (#[trigger] old(self).stories@[y]).priority
                                        && crate::parallel::story::spec_files_overlap(
                                        old(self).stories@[a as int].target_files@,
                                        old(self).stories@[y].target_files@,
                                    ) implies spec_has_dep(
                                    post[y].depends_on@,
                                    old(self).stories@[a as int].id@,
                                ) by {
                                    assert(spec_has_dep(
                                        pre_stories[y].depends_on@,
                                        old(self).stories@[a as int].id@,
                                    ));
                                    let k = choose|k: int|
                                        0 <= k < pre_stories[y].depends_on@.len() && (
                                        #[trigger] pre_stories[y].depends_on@[k])@ == old(
                                            self,
                                        ).stories@[a as int].id@;
                                    assert(post[y] == pre_stories[y]);
                                }
                                assert((post[b as int].depends_on@.last())@ == old(
                                    self,
                                ).stories@[a as int].id@);
                                assert(spec_has_dep(
                                    post[b as int].depends_on@,
                                    old(self).stories@[a as int].id@,
                                ));
                            }
                        } else {
                            proof {
                                assert(dep_id@ == old(self).stories@[a as int].id@);
                                assert(spec_has_dep(
                                    self.stories@[b as int].depends_on@,
                                    old(self).stories@[a as int].id@,
                                ));
                            }
                        }
                    }
                }
                b += 1;
            }
            a += 1;
        }
    }

    /// Detect dependency cycles by repeatedly discharging stories whose
    /// dependencies are all discharged; what cannot be discharged lies on
    /// or behind a cycle (or a dangling dependency), and its ids are
    /// reported in the error.
    pub fn validate(&self) -> (r: Result<(), String>)
        ensures
            spec_no_deps(self.stories@) ==> r is Ok,
            spec_distinct_ids(self.stories@) && spec_has_dangling(self.stories@) ==> r is Err,
            spec_distinct_ids(self.stories@) && spec_has_self_dep(self.stories@) ==> r is Err,
    {
        let n = self.stories.len();
        let mut done = StringSet::new();
        let mut progressed = true;
        let mut rounds: usize = 0;
        let ghost mut swept = false;
        while progressed && rounds <= n
            invariant
                done.wf(),
                n == self.stories@.len(),
                rounds <= n + 1,
                swept || (progressed == true && rounds == 0),
                spec_no_deps(self.stories@) && swept ==> forall|k: int| 0 <= k < n
                    ==> done.spec_contains((#[trigger] self.stories@[k]).id@),
                forall|z: Seq<char>| #[trigger] done.spec_contains(z) ==> spec_is_story_id(
                    self.stories@,
                    z,
                ),
                spec_distinct_ids(self.stories@) ==> forall|i2: int, d2: int|
                    #![trigger self.stories@[i2].depends_on@[d2]]
                    0 <= i2 < n && 0 <= d2 < self.stories@[i2].depends_on@.len() && (
                    !spec_is_story_id(self.stories@, (self.stories@[i2].depends_on@[d2])@)
                        || (self.stories@[i2].depends_on@[d2])@ == self.stories@[i2].id@)
                        ==> !done.spec_contains(self.stories@[i2].id@),
            ensures
                done.wf(),
                n == self.stories@.len(),
                swept,
                spec_no_deps(self.stories@) ==> forall|k: int| 0 <= k < n ==> done.spec_contains(
                    (#[trigger] self.stories@[k]).id@,
                ),
                spec_distinct_ids(self.stories@) ==> forall|i2: int, d2: int|
                    #![trigger self.stories@[i2].depends_on@[d2]]
                    0 <= i2 < n && 0 <= d2 < self.stories@[i2].depends_on@.len() && (
                    !spec_is_story_id(self.stories@, (self.stories@[i2].depends_on@[d2])@)
                        || (self.stories@[i2].depends_on@[d2])@ == self.stories@[i2].id@)
                        ==> !done.spec_contains(self.stories@[i2].id@),
            decreases n - rounds + 1,
        {
            progressed = false;
            let mut i: usize = 0;
            while i < n
                invariant
                    i <= n,
                    n == self.stories@.len(),
                    done.wf(),
                    spec_no_deps(self.stories@) ==> forall|k: int| 0 <= k < i
                        ==> done.spec_contains((#[trigger] self.stories@[k]).id@),
                    forall|z: Seq<char>| #[trigger] done.spec_contains(z) ==> spec_is_story_id(
                        self.stories@,
                        z,
                    ),
                    spec_distinct_ids(self.stories@) ==> forall|i2: int, d2: int|
                        #![trigger self.stories@[i2].depends_on@[d2]]
                        0 <= i2 < n && 0 <= d2 < self.stories@[i2].depends_on@.len() && (
                        !spec_is_story_id(self.stories@, (self.stories@[i2].depends_on@[d2])@)
                            || (self.stories@[i2].depends_on@[d2])@ == self.stories@[i2].id@)
                            ==> !done.spec_contains(self.stories@[i2].id@),
                decreases n - i,
            {
                let story = &self.stories[i];
                if !done.contains(story.id.as_str()) {
                    let mut all_done = true;
                    let mut d: usize = 0;
                    while d < story.depends_on.len()
                        invariant
                            d <= story.depends_on@.len(),
                            done.wf(),
                            story.depends_on@.len() == 0 ==> all_done,
                            all_done ==> forall|x: int| 0 <= x < d ==> done.spec_contains(
                                (#[trigger] story.depends_on@[x])@,
                            ),
                        decreases story.depends_on@.len() - d,
                    {
                        if !done.contains(story.depends_on[d].as_str()) {
                            all_done = false;
                        }
                        d += 1;
                    }
                    proof {
                        if spec_no_deps(self.stories@) {
                            assert(self.stories@[i as int].depends_on@.len() == 0);
                            assert(all_done);
                        }
                    }
                    if all_done {
                        let ghost pre_done = done;
                        done.insert(story.id.clone());
                        progressed = true;
                        proof {
                            assert forall|z: Seq<char>| #[trigger] done.spec_contains(z) implies
                                spec_is_story_id(self.stories@, z) by {
                                if !pre_done.spec_contains(z) {
                                    assert(z == self.stories@[i as int].id@);
                                    assert(0 <= i < n && self.stories@[i as int].id@ == z);
                                }
                            }
                            if spec_distinct_ids(self.stories@) {
                                assert forall|i2: int, d2: int|
                                    #![trigger self.stories@[i2].depends_on@[d2]]
                                    0 <= i2 < n && 0 <= d2 < self.stories@[
                                        i2
                                    ].depends_on@.len() && (!spec_is_story_id(
                                        self.stories@,
                                        (self.stories@[i2].depends_on@[d2])@,
                                    ) || (self.stories@[i2].depends_on@[d2])@ == self.stories@[
                                        i2
                                    ].id@) implies !done.spec_contains(
                                    self.stories@[i2].id@,
                                ) by {
                                    if i2 == i {
                                        assert(pre_done.spec_contains(
                                            (self.stories@[i as int].depends_on@[d2])@,
                                        ));
                                        if !spec_is_story_id(
                                            self.stories@,
                                            (self.stories@[i2].depends_on@[d2])@,
                                        ) {
                                            assert(spec_is_story_id(
                                                self.stories@,
                                                (self.stories@[i as int].depends_on@[d2])@,
                                            ));
                                        } else {
                                            assert(!pre_done.spec_contains(
                                                self.stories@[i as int].id@,
                                            ));
                                            assert(false);
                                        }
                                    } else {
                                        if i2 < i {
                                            assert(self.stories@[i2].id@ != self.stories@[
                                                i as int
                                            ].id@);
                                        } else {
                                            assert(self.stories@[i as int].id@ != self.stories@[
                                                i2
                                            ].id@);
                                        }
                                        assert(!pre_done.spec_contains(self.stories@[i2].id@));
                                    }
                                }
                            }
                        }
                    }
                }
                i += 1;
            }
            proof {
                swept = true;
            }
            if rounds == n {
                break;
            }
            rounds += 1;
        }
        let mut stuck: Vec<&String> = Vec::new();
        let mut i: usize = 0;
        while i < n
            invariant
                i <= n,
                n == self.stories@.len(),
                done.wf(),
                spec_no_deps(self.stories@) ==> forall|k: int| 0 <= k < n
                    ==> done.spec_contains((#[trigger] self.stories@[k]).id@),
                spec_no_deps(self.stories@) ==> stuck@.len() == 0,
                stuck@.len() == 0 ==> forall|k: int| 0 <= k < i ==> done.spec_contains(
                    (#[trigger] self.stories@[k]).id@,
                ),
                spec_distinct_ids(self.stories@) ==> forall|i2: int, d2: int|
                    #![trigger self.stories@[i2].depends_on@[d2]]
                    0 <= i2 < n && 0 <= d2 < self.stories@[i2].depends_on@.len() && (
                    !spec_is_story_id(self.stories@, (self.stories@[i2].depends_on@[d2])@)
                        || (self.stories@[i2].depends_on@[d2])@ == self.stories@[i2].id@)
                        ==> !done.spec_contains(self.stories@[i2].id@),
            decreases n - i,
        {
            if !done.contains(self.stories[i].id.as_str()) {
                stuck.push(&self.stories[i].id);
            }
            i += 1;
        }
        if stuck.len() == 0 {
            proof {
                if spec_distinct_ids(self.stories@) && spec_has_dangling(self.stories@) {
                    let (i0, d0): (int, int) = choose|i0: int, d0: int|
                        #![trigger self.stories@[i0].depends_on@[d0]]
                        0 <= i0 < self.stories@.len() && 0 <= d0 < self.stories@[
                            i0
                        ].depends_on@.len() && !spec_is_story_id(
                            self.stories@,
                            (self.stories@[i0].depends_on@[d0])@,
                        );
                    assert(done.spec_contains(self.stories@[i0].id@));
                    assert(false);
                }
                if spec_distinct_ids(self.stories@) && spec_has_self_dep(self.stories@) {
                    let (i0, d0): (int, int) = choose|i0: int, d0: int|
                        #![trigger self.stories@[i0].depends_on@[d0]]
                        0 <= i0 < self.stories@.len() && 0 <= d0 < self.stories@[
                            i0
                        ].depends_on@.len() && (self.stories@[i0].depends_on@[d0])@
                            == self.stories@[i0].id@;
                    assert(done.spec_contains(self.stories@[i0].id@));
                    assert(false);
                }
            }
            Ok(())
        } else {
            let mut msg = String::from_str("Dependency cycle or missing dependency involving: ");
            let mut k: usize = 0;
            while k < stuck.len()
                invariant
                    k <= stuck@.len(),
                decreases stuck@.len() - k,
            {
                if k > 0 {
                    msg.append(", ");
                }
                msg.append(stuck[k].as_str());
                k += 1;
            }
            Err(msg)
        }
    }

    /// The stories that are ready: dependencies all completed and the story
    /// itself not completed, in ascending priority order.
    pub fn get_ready_stories(&self, completed: &StringSet) -> (r: Vec<StoryNode>)
        ensures
            forall|k: int| 0 <= k < r@.len() ==> spec_story_in_prefix(
                self.stories@,
                self.stories@.len() as int,
                #[trigger] r@[k],
            ),
            forall|k: int| 0 <= k < r@.len() ==> !completed.spec_contains((#[trigger] r@[k]).id@),
            forall|k: int| 0 <= k < r@.len() ==> spec_deps_satisfied(#[trigger] r@[k], *completed),
            forall|k1: int, k2: int| 0 <= k1 < k2 < r@.len() ==> (#[trigger] r@[k1]).priority <= (
            #[trigger] r@[k2]).priority,
            forall|i: int|
                0 <= i < self.stories@.len() && !completed.spec_contains(
                    (#[trigger] self.stories@[i]).id@,
                ) && spec_deps_satisfied(self.stories@[i], *completed) ==> spec_in_stories(
                    r@,
                    self.stories@[i],
                ),
    {
        let mut eligible: Vec<StoryNode> = Vec::new();
        let mut i: usize = 0;
        while i < self.stories.len()
            invariant
                i <= self.stories@.len(),
                forall|k: int| 0 <= k < eligible@.len() ==> spec_story_in_prefix(
                    self.stories@,
                    self.stories@.len() as int,
                    #[trigger] eligible@[k],
                ),
                forall|k: int| 0 <= k < eligible@.len() ==> !completed.spec_contains(
                    (#[trigger] eligible@[k]).id@,
                ),
                forall|k: int| 0 <= k < eligible@.len() ==> spec_deps_satisfied(
                    #[trigger] eligible@[k],
                    *completed,
                ),
                forall|i2: int|
                    0 <= i2 < i && !completed.spec_contains((#[trigger] self.stories@[i2]).id@)
                        && spec_deps_satisfied(self.stories@[i2], *completed) ==> spec_in_stories(
                        eligible@,
                        self.stories@[i2],
                    ),
            decreases self.stories@.len() - i,
        {
            let ghost pre = eligible@;
            let story = &self.stories[i];
            let mut pushed = false;
            if !completed.contains(story.id.as_str()) {
                let mut all_done = true;
                let mut d: usize = 0;
                while d < story.depends_on.len()
                    invariant
                        d <= story.depends_on@.len(),
                        all_done ==> forall|j: int| 0 <= j < d ==> completed.spec_contains(
                            (#[trigger] story.depends_on@[j])@,
                        ),
                        !all_done ==> exists|j: int|
                            0 <= j < d && !completed.spec_contains(
                                (#[trigger] story.depends_on@[j])@,
                            ),
                    decreases story.depends_on@.len() - d,
                {
                    if !completed.contains(story.depends_on[d].as_str()) {
                        all_done = false;
                    }
                    d += 1;
                }
                if all_done {
                    let copy = story.duplicate();
                    eligible.push(copy);
                    pushed = true;
                    proof {
                        let last = eligible@.len() - 1;
                        assert(story_eq(eligible@[last], self.stories@[i as int]));
                        assert(spec_story_in_prefix(
                            self.stories@,
                            self.stories@.len() as int,
                            eligible@[last],
                        ));
                    }
                } else {
                    proof {
                        // A dependency was not completed, so the story is
                        // not ready.
                        let j = choose|j: int|
                            0 <= j < story.depends_on@.len() && !completed.spec_contains(
                                (#[trigger] story.depends_on@[j])@,
                            );
                        assert(!spec_deps_satisfied(self.stories@[i as int], *completed));
                    }
                }
            }
            proof {
                assert forall|i2: int|
                    0 <= i2 < i + 1 && !completed.spec_contains((#[trigger] self.stories@[i2]).id@)
                        && spec_deps_satisfied(self.stories@[i2], *completed) implies
                    spec_in_stories(eligible@, self.stories@[i2]) by {
                    if i2 < i {
                        let k = choose|k: int|
                            0 <= k < pre.len() && story_eq(self.stories@[i2], #[trigger] pre[k]);
                        assert(eligible@[k] == pre[k]);
                        assert(story_eq(self.stories@[i2], eligible@[k]));
                    } else {
                        assert(pushed);
                        assert(story_eq(self.stories@[i2], eligible@.last()));
                    }
                }
            }
            i += 1;
        }
        // Stable insertion sort by ascending priority.
        let mut sorted: Vec<StoryNode> = Vec::new();
        let mut k: usize = 0;
        while k < eligible.len()
            invariant
                k <= eligible@.len(),
                forall|k2: int| 0 <= k2 < k ==> spec_in_stories(
                    sorted@,
                    #[trigger] eligible@[k2],
                ),
                forall|x: int| 0 <= x < sorted@.len() ==> spec_story_in_prefix(
                    self.stories@,
                    self.stories@.len() as int,
                    #[trigger] sorted@[x],
                ),
                forall|x: int| 0 <= x < sorted@.len() ==> !completed.spec_contains(
                    (#[trigger] sorted@[x]).id@,
                ),
                forall|x: int| 0 <= x < sorted@.len() ==> spec_deps_satisfied(
                    #[trigger] sorted@[x],
                    *completed,
                ),
                forall|x1: int, x2: int| 0 <= x1 < x2 < sorted@.len() ==> (
                #[trigger] sorted@[x1]).priority <= (#[trigger] sorted@[x2]).priority,
                forall|k2: int| 0 <= k2 < eligible@.len() ==> spec_story_in_prefix(
                    self.stories@,
                    self.stories@.len() as int,
                    #[trigger] eligible@[k2],
                ),
                forall|k2: int| 0 <= k2 < eligible@.len() ==> !completed.spec_contains(
                    (#[trigger] eligible@[k2]).id@,
                ),
                forall|k2: int| 0 <= k2 < eligible@.len() ==> spec_deps_satisfied(
                    #[trigger] eligible@[k2],
                    *completed,
                ),
            decreases eligible@.len() - k,
        {
            let item = eligible[k].duplicate();
            // Find the insertion position: after every entry with priority
            // at most the item's.
            let mut pos: usize = sorted.len();
            loop
                invariant
                    pos <= sorted@.len(),
                    forall|x: int| pos <= x < sorted@.len() ==> (#[trigger] sorted@[x]).priority
                        > item.priority,
                ensures
                    pos <= sorted@.len(),
                    forall|x: int| pos <= x < sorted@.len() ==> (#[trigger] sorted@[x]).priority
                        > item.priority,
                    pos == 0 || sorted@[pos - 1].priority <= item.priority,
                decreases pos,
            {
                if pos == 0 {
                    break;
                }
                if sorted[pos - 1].priority <= item.priority {
                    break;
                }
                pos -= 1;
            }
            let ghost item_snap = item;
            let ghost pre = sorted@;
            sorted.insert(pos, item);
            proof {
                pre.insert_ensures(pos as int, item_snap);
                assert(sorted@ == pre.insert(pos as int, item_snap));
                assert forall|k2: int| 0 <= k2 < k + 1 implies spec_in_stories(
                    sorted@,
                    #[trigger] eligible@[k2],
                ) by {
                    if k2 < k {
                        let w = choose|w: int|
                            0 <= w < pre.len() && story_eq(eligible@[k2], #[trigger] pre[w]);
                        let w2: int = if w < pos {
                            w
                        } else {
                            w + 1
                        };
                        if w < pos {
                            assert(sorted@[w2] == pre[w]);
                        } else {
                            assert(sorted@[w2] == pre[w]);
                        }
                        assert(story_eq(eligible@[k2], sorted@[w2]));
                    } else {
                        assert(sorted@[pos as int] == item_snap);
                        assert(story_eq(eligible@[k2], sorted@[pos as int]));
                    }
                }
                assert(story_eq(item_snap, eligible@[k as int]));
                assert(spec_story_in_prefix(
                    self.stories@,
                    self.stories@.len() as int,
                    eligible@[k as int],
                ));
                let w = choose|w: int|
                    0 <= w < self.stories@.len() && w < self.stories@.len() && story_eq(
                        eligible@[k as int],
                        #[trigger] self.stories@[w],
                    );
                assert forall|x: int| 0 <= x < sorted@.len() implies spec_story_in_prefix(
                    self.stories@,
                    self.stories@.len() as int,
                    #[trigger] sorted@[x],
                ) by {
                    if x < pos {
                        assert(sorted@[x] == pre[x]);
                    } else if x == pos {
                        assert(sorted@[x] == item_snap);
                        assert(story_eq(item_snap, self.stories@[w]));
                    } else {
                        assert(sorted@[x] == pre[x - 1]);
                    }
                }
                assert forall|x: int| 0 <= x < sorted@.len() implies !completed.spec_contains(
                    (#[trigger] sorted@[x]).id@,
                ) by {
                    if x < pos {
                        assert(sorted@[x] == pre[x]);
                    } else if x == pos {
                        assert(sorted@[x] == item_snap);
                    } else {
                        assert(sorted@[x] == pre[x - 1]);
                    }
                }
                assert forall|x: int| 0 <= x < sorted@.len() implies spec_deps_satisfied(
                    #[trigger] sorted@[x],
                    *completed,
                ) by {
                    if x < pos {
                        assert(sorted@[x] == pre[x]);
                    } else if x == pos {
                        assert(sorted@[x] == item_snap);
                    } else {
                        assert(sorted@[x] == pre[x - 1]);
                    }
                }
                assert forall|x1: int, x2: int| 0 <= x1 < x2 < sorted@.len() implies (
                #[trigger] sorted@[x1]).priority <= (#[trigger] sorted@[x2]).priority by {
                    let p1: int = if x1 < pos { x1 } else { x1 - 1 };
                    let p2: int = if x2 < pos { x2 } else { x2 - 1 };
                    if x1 != pos && x2 != pos {
                        assert(sorted@[x1] == pre[p1]);
                        assert(sorted@[x2] == pre[p2]);
                    } else if x1 == pos {
                        assert(sorted@[x1] == item_snap);
                        assert(sorted@[x2] == pre[p2]);
                        assert(p2 >= pos);
                    } else {
                        assert(sorted@[x1] == pre[p1]);
                        assert(sorted@[x2] == item_snap);
                        assert(p1 < pos);
                        assert(pos >= 1);
                        if p1 < pos - 1 {
                            assert(pre[p1].priority <= pre[pos - 1].priority);
                        }
                        assert(pre[p1].priority <= item_snap.priority);
                    }
                }
            }
            k += 1;
        }
        proof {
            assert forall|i: int|
                0 <= i < self.stories@.len() && !completed.spec_contains(
                    (#[trigger] self.stories@[i]).id@,
                ) && spec_deps_satisfied(self.stories@[i], *completed) implies spec_in_stories(
                sorted@,
                self.stories@[i],
            ) by {
                assert(spec_in_stories(eligible@, self.stories@[i]));
                let w = choose|w: int|
                    0 <= w < eligible@.len() && story_eq(self.stories@[i], #[trigger] eligible@[w]);
                assert(spec_in_stories(sorted@, eligible@[w]));
                let x = choose|x: int|
                    0 <= x < sorted@.len() && story_eq(eligible@[w], #[trigger] sorted@[x]);
                assert(story_eq(self.stories@[i], sorted@[x]));
            }
        }
        sorted
    }
}

} // verus!
