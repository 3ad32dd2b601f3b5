//! Pre-execution conflict control: among ready stories with overlapping
//! target files, the lower-priority story is deferred to a later turn.

use vstd::prelude::*;

use crate::collections::StringSet;
use crate::parallel::story::{files_overlap, spec_files_overlap, spec_story_in_prefix, story_eq, StoryNode};
use crate::text::lex_lt;

verus! {

/// Whether `a` is deferred in favour of `b` when the two conflict: `a` has
/// the higher priority number, or equal priority and the later id.
pub open spec fn spec_defers_to(a: StoryNode, b: StoryNode) -> bool {
    a.priority > b.priority || (a.priority == b.priority && lex_lt(
        vstd::utf8::encode_utf8(b.id@),
        vstd::utf8::encode_utf8(a.id@),
    ))
}

/// The id of the story deferred out of a conflicting pair.
pub open spec fn spec_loser_id(a: StoryNode, b: StoryNode) -> Seq<char> {
    if spec_defers_to(a, b) {
        a.id@
    } else {
        b.id@
    }
}

/// Whether some conflict pair defers the id `d`.
pub open spec fn spec_defers_id(pairs: Seq<(String, String)>, d: Seq<char>) -> bool {
    exists|k: int| 0 <= k < pairs.len() && (#[trigger] pairs[k].0@) == d
}

/// Whether a pair of distinct stories in `ss` justifies deferring `d` in
/// favour of `w`.
pub open spec fn spec_conflict_pair(ss: Seq<StoryNode>, d: Seq<char>, w: Seq<char>) -> bool {
    exists|i: int, j: int|
        0 <= i < j < ss.len() && spec_files_overlap(
            (#[trigger] ss[i]).target_files@,
            (#[trigger] ss[j]).target_files@,
        ) && spec_loser_id(ss[i], ss[j]) == d && (if spec_defers_to(ss[i], ss[j]) {
            ss[j].id@
        } else {
            ss[i].id@
        }) == w
}

/// The winning id of a conflicting pair.
pub open spec fn spec_winner_id(a: StoryNode, b: StoryNode) -> Seq<char> {
    if spec_defers_to(a, b) {
        b.id@
    } else {
        a.id@
    }
}

/// The conflict pairs from position `(i, j)` on, in scan order: one
/// `(loser, winner)` id pair for every `i < j` whose stories' target
/// files overlap.
pub open spec fn spec_pairs_from(ss: Seq<StoryNode>, i: int, j: int) -> Seq<(Seq<char>, Seq<char>)>
    decreases ss.len() - i, ss.len() - j,
    when 0 <= i && i < j
{
    if i >= ss.len() {
        Seq::empty()
    } else if j >= ss.len() {
        spec_pairs_from(ss, i + 1, i + 2)
    } else {
        let rest = spec_pairs_from(ss, i, j + 1);
        if spec_files_overlap(ss[i].target_files@, ss[j].target_files@) {
            seq![(spec_loser_id(ss[i], ss[j]), spec_winner_id(ss[i], ss[j]))] + rest
        } else {
            rest
        }
    }
}

/// The full conflict-pair sequence of a story set.
pub open spec fn spec_conflict_pairs(ss: Seq<StoryNode>) -> Seq<(Seq<char>, Seq<char>)> {
    spec_pairs_from(ss, 0, 1)
}

/// The id-pair views of a pair list.
pub open spec fn spec_pair_views(v: Seq<(String, String)>) -> Seq<(Seq<char>, Seq<char>)> {
    v.map(|k: int, p: (String, String)| (p.0@, p.1@))
}

/// Detect pre-execution conflicts between ready stories.
///
/// Every unordered pair with overlapping target files yields one pair
/// `(deferred id, winning id)`: the deferred story has the higher priority
/// number, with ties broken towards the lexicographically later id. Every
/// overlapping pair is reported, and nothing else is.
pub fn detect_preexecution_conflicts(stories: &Vec<StoryNode>) -> (r: Vec<(String, String)>)
    ensures
        forall|k: int| 0 <= k < r@.len() ==> spec_conflict_pair(
            stories@,
            (#[trigger] r@[k]).0@,
            r@[k].1@,
        ),
        forall|i: int, j: int|
            0 <= i < j < stories@.len() && spec_files_overlap(
                (#[trigger] stories@[i]).target_files@,
                (#[trigger] stories@[j]).target_files@,
            ) ==> spec_defers_id(r@, spec_loser_id(stories@[i], stories@[j])),
        spec_pair_views(r@) == spec_conflict_pairs(stories@),
{
    let mut conflicts: Vec<(String, String)> = Vec::new();
    let n = stories.len();
    let mut i: usize = 0;
    proof {
        assert(spec_pair_views(conflicts@) =~= Seq::<(Seq<char>, Seq<char>)>::empty());
    }
    while i < n
        invariant
            i <= n,
            n == stories@.len(),
            spec_pair_views(conflicts@) + spec_pairs_from(stories@, i as int, i + 1)
                == spec_conflict_pairs(stories@),
            forall|k: int| 0 <= k < conflicts@.len() ==> spec_conflict_pair(
                stories@,
                (#[trigger] conflicts@[k]).0@,
                conflicts@[k].1@,
            ),
            forall|a: int, b: int|
                0 <= a < b < stories@.len() && a < i && spec_files_overlap(
                    (#[trigger] stories@[a]).target_files@,
                    (#[trigger] stories@[b]).target_files@,
                ) ==> spec_defers_id(conflicts@, spec_loser_id(stories@[a], stories@[b])),
        decreases n - i,
    {
        let mut j: usize = i + 1;
        while j < n
            invariant
                i < j <= n,
                n == stories@.len(),
                spec_pair_views(conflicts@) + spec_pairs_from(stories@, i as int, j as int)
                    == spec_conflict_pairs(stories@),
                forall|k: int| 0 <= k < conflicts@.len() ==> spec_conflict_pair(
                    stories@,
                    (#[trigger] conflicts@[k]).0@,
                    conflicts@[k].1@,
                ),
                forall|a: int, b: int|
                    0 <= a < b < stories@.len() && (a < i || (a == i && b < j))
                        && spec_files_overlap(
                        (#[trigger] stories@[a]).target_files@,
                        (#[trigger] stories@[b]).target_files@,
                    ) ==> spec_defers_id(conflicts@, spec_loser_id(stories@[a], stories@[b])),
            decreases n - j,
        {
            let story_a = &stories[i];
            let story_b = &stories[j];
            if files_overlap(&story_a.target_files, &story_b.target_files) {
                let ghost pre = conflicts@;
                let a_defers = story_a.priority > story_b.priority || (story_a.priority
                    == story_b.priority && crate::text::str_lt(
                    story_b.id.as_str(),
                    story_a.id.as_str(),
                ));
                if a_defers {
                    conflicts.push((story_a.id.clone(), story_b.id.clone()));
                } else {
                    conflicts.push((story_b.id.clone(), story_a.id.clone()));
                }
                proof {
                    let k = conflicts@.len() - 1;
                    assert(spec_defers_to(stories@[i as int], stories@[j as int]) == a_defers);
                    assert(conflicts@[k].0@ == spec_loser_id(stories@[i as int], stories@[j as int]));
                    assert(conflicts@[k].1@ == spec_winner_id(stories@[i as int], stories@[j as int]));
                    assert(spec_pair_views(conflicts@) =~= spec_pair_views(pre) + seq![
                        (
                            spec_loser_id(stories@[i as int], stories@[j as int]),
                            spec_winner_id(stories@[i as int], stories@[j as int]),
                        ),
                    ]);
                    assert(spec_pairs_from(stories@, i as int, j as int) == seq![
                        (
                            spec_loser_id(stories@[i as int], stories@[j as int]),
                            spec_winner_id(stories@[i as int], stories@[j as int]),
                        ),
                    ] + spec_pairs_from(stories@, i as int, j + 1));
                    assert(spec_pair_views(conflicts@) + spec_pairs_from(stories@, i as int, j + 1)
                        =~= spec_conflict_pairs(stories@));
                    assert(spec_conflict_pair(stories@, conflicts@[k].0@, conflicts@[k].1@));
                    assert forall|k2: int| 0 <= k2 < pre.len() implies spec_conflict_pair(
                        stories@,
                        (#[trigger] conflicts@[k2]).0@,
                        conflicts@[k2].1@,
                    ) by {
                        assert(conflicts@[k2] == pre[k2]);
                    }
                    assert forall|a: int, b: int|
                        0 <= a < b < stories@.len() && (a < i || (a == i && b < j + 1))
                            && spec_files_overlap(
                            (#[trigger] stories@[a]).target_files@,
                            (#[trigger] stories@[b]).target_files@,
                        ) implies spec_defers_id(
                        conflicts@,
                        spec_loser_id(stories@[a], stories@[b]),
                    ) by {
                        if a == i && b == j {
                            assert(conflicts@[k].0@ == spec_loser_id(stories@[a], stories@[b]));
                        } else {
                            assert(spec_defers_id(pre, spec_loser_id(stories@[a], stories@[b])));
                            let w = choose|w: int|
                                0 <= w < pre.len() && (#[trigger] pre[w].0@) == spec_loser_id(
                                    stories@[a],
                                    stories@[b],
                                );
                            assert(conflicts@[w].0@ == spec_loser_id(stories@[a], stories@[b]));
                        }
                    }
                }
            } else {
                proof {
                    assert(spec_pairs_from(stories@, i as int, j as int) == spec_pairs_from(
                        stories@,
                        i as int,
                        j + 1,
                    ));
                }
            }
            j += 1;
        }
        proof {
            assert(spec_pairs_from(stories@, i as int, n as int) == spec_pairs_from(
                stories@,
                i + 1,
                i + 2,
            ));
        }
        i += 1;
    }
    proof {
        assert(spec_pairs_from(stories@, n as int, n + 1) =~= Seq::<(Seq<char>, Seq<char>)>::empty());
        assert(spec_pair_views(conflicts@) + spec_pairs_from(stories@, n as int, n + 1)
            =~= spec_pair_views(conflicts@));
    }
    conflicts
}

/// The stories of `ss` whose ids no conflict pair defers, in order.
pub open spec fn spec_kept(ss: Seq<StoryNode>, pairs: Seq<(String, String)>) -> Seq<StoryNode>
    decreases ss.len(),
{
    if ss.len() == 0 {
        Seq::empty()
    } else {
        let pre = spec_kept(ss.drop_last(), pairs);
        if spec_defers_id(pairs, ss.last().id@) {
            pre
        } else {
            pre.push(ss.last())
        }
    }
}

/// With no conflict pairs, nothing is deferred and every story is kept.
proof fn lemma_kept_no_pairs(ss: Seq<StoryNode>, pairs: Seq<(String, String)>)
    requires
        pairs.len() == 0,
    ensures
        spec_kept(ss, pairs) == ss,
    decreases ss.len(),
{
    if ss.len() > 0 {
        lemma_kept_no_pairs(ss.drop_last(), pairs);
        assert(!spec_defers_id(pairs, ss.last().id@));
        assert(spec_kept(ss, pairs) =~= ss);
    } else {
        assert(spec_kept(ss, pairs) =~= ss);
    }
}

/// Filter ready stories to avoid pre-execution conflicts.
///
/// Exactly the stories deferred by some conflict pair are dropped; the
/// rest are kept in order, so the result is the kept subsequence of the
/// input. No two stories that survive the filter have overlapping target
/// files, so the batch that dispatches is conflict-free.
#[verifier::loop_isolation(false)]
pub fn filter_conflicting_stories(stories: Vec<StoryNode>) -> (r: (
    Vec<StoryNode>,
    Vec<(String, String)>,
))
    requires
        forall|i: int, j: int| 0 <= i < j < stories@.len() ==> (#[trigger] stories@[i]).id@ != (
        #[trigger] stories@[j]).id@,
    ensures
        forall|k: int| 0 <= k < r.0@.len() ==> spec_story_in_prefix(
            stories@,
            stories@.len() as int,
            #[trigger] r.0@[k],
        ),
        forall|k1: int, k2: int| 0 <= k1 < k2 < r.0@.len() ==> !spec_files_overlap(
            (#[trigger] r.0@[k1]).target_files@,
            (#[trigger] r.0@[k2]).target_files@,
        ),
        forall|k: int| 0 <= k < r.1@.len() ==> spec_conflict_pair(
            stories@,
            (#[trigger] r.1@[k]).0@,
            r.1@[k].1@,
        ),
        r.0@.len() == spec_kept(stories@, r.1@).len(),
        forall|k: int| 0 <= k < r.0@.len() ==> story_eq(
            #[trigger] r.0@[k],
            spec_kept(stories@, r.1@)[k],
        ),
        forall|i: int, j: int|
            0 <= i < j < stories@.len() && spec_files_overlap(
                (#[trigger] stories@[i]).target_files@,
                (#[trigger] stories@[j]).target_files@,
            ) ==> spec_defers_id(r.1@, spec_loser_id(stories@[i], stories@[j])),
        spec_pair_views(r.1@) == spec_conflict_pairs(stories@),
{
    let conflicts = detect_preexecution_conflicts(&stories);
    if conflicts.len() == 0 {
        proof {
            lemma_kept_no_pairs(stories@, conflicts@);
            assert forall|k: int| 0 <= k < stories@.len() implies story_eq(
                #[trigger] stories@[k],
                spec_kept(stories@, conflicts@)[k],
            ) by {
                assert(spec_kept(stories@, conflicts@)[k] == stories@[k]);
                assert(story_eq(stories@[k], stories@[k]));
            }
            assert forall|k1: int, k2: int| 0 <= k1 < k2 < stories@.len() implies
                !spec_files_overlap(
                (#[trigger] stories@[k1]).target_files@,
                (#[trigger] stories@[k2]).target_files@,
            ) by {
                if spec_files_overlap(stories@[k1].target_files@, stories@[k2].target_files@) {
                    assert(spec_defers_id(
                        conflicts@,
                        spec_loser_id(stories@[k1], stories@[k2]),
                    ));
                }
            }
            assert forall|k: int| 0 <= k < stories@.len() implies spec_story_in_prefix(
                stories@,
                stories@.len() as int,
                #[trigger] stories@[k],
            ) by {
                assert(story_eq(stories@[k], stories@[k]));
            }
        }
        return (stories, conflicts);
    }
    let mut deferred = StringSet::new();
    let mut c: usize = 0;
    while c < conflicts.len()
        invariant
            c <= conflicts@.len(),
            deferred.wf(),
            forall|z: Seq<char>| #[trigger] deferred.spec_contains(z) <==> (exists|k: int|
                0 <= k < c && (#[trigger] conflicts@[k].0@) == z),
        decreases conflicts@.len() - c,
    {
        deferred.insert(conflicts[c].0.clone());
        proof {
            assert(conflicts@[c as int].0@ == conflicts@[c as int].0@);
        }
        c += 1;
    }
    proof {
        assert forall|z: Seq<char>| #[trigger] deferred.spec_contains(z) <==> spec_defers_id(
            conflicts@,
            z,
        ) by {}
    }
    let mut filtered: Vec<StoryNode> = Vec::new();
    let mut i: usize = 0;
    while i < stories.len()
        invariant
            i <= stories@.len(),
            deferred.wf(),
            forall|z: Seq<char>| #[trigger] deferred.spec_contains(z) <==> spec_defers_id(
                conflicts@,
                z,
            ),
            forall|k: int| 0 <= k < filtered@.len() ==> spec_story_in_prefix(
                stories@,
                i as int,
                #[trigger] filtered@[k],
            ),
            forall|k: int| 0 <= k < filtered@.len() ==> !spec_defers_id(
                conflicts@,
                (#[trigger] filtered@[k]).id@,
            ),
            forall|k1: int, k2: int| 0 <= k1 < k2 < filtered@.len() ==> (
            #[trigger] filtered@[k1]).id@ != (#[trigger] filtered@[k2]).id@,
            filtered@.len() == spec_kept(stories@.subrange(0, i as int), conflicts@).len(),
            forall|k: int| 0 <= k < filtered@.len() ==> story_eq(
                #[trigger] filtered@[k],
                spec_kept(stories@.subrange(0, i as int), conflicts@)[k],
            ),
            forall|k: int| 0 <= k < conflicts@.len() ==> spec_conflict_pair(
                stories@,
                (#[trigger] conflicts@[k]).0@,
                conflicts@[k].1@,
            ),
            forall|a: int, b: int|
                0 <= a < b < stories@.len() && spec_files_overlap(
                    (#[trigger] stories@[a]).target_files@,
                    (#[trigger] stories@[b]).target_files@,
                ) ==> spec_defers_id(conflicts@, spec_loser_id(stories@[a], stories@[b])),
        decreases stories@.len() - i,
    {
        let ghost pre = filtered@;
        proof {
            assert(stories@.subrange(0, i + 1).drop_last() =~= stories@.subrange(0, i as int));
            assert(stories@.subrange(0, i + 1).last() == stories@[i as int]);
        }
        if !deferred.contains(stories[i].id.as_str()) {
            filtered.push(stories[i].duplicate());
            proof {
                let last = filtered@.len() - 1;
                assert(story_eq(filtered@[last], stories@[i as int]));
                assert forall|k: int| 0 <= k < filtered@.len() implies spec_story_in_prefix(
                    stories@,
                    i + 1,
                    #[trigger] filtered@[k],
                ) by {
                    if k < last {
                        assert(filtered@[k] == pre[k]);
                        assert(spec_story_in_prefix(stories@, i as int, pre[k]));
                        let w = choose|w: int|
                            0 <= w < i && w < stories@.len() && story_eq(
                                pre[k],
                                #[trigger] stories@[w],
                            );
                        assert(story_eq(filtered@[k], stories@[w]));
                    } else {
                        assert(story_eq(filtered@[k], stories@[i as int]));
                    }
                }
                assert forall|k1: int, k2: int| 0 <= k1 < k2 < filtered@.len() implies (
                #[trigger] filtered@[k1]).id@ != (#[trigger] filtered@[k2]).id@ by {
                    if k2 == last {
                        assert(filtered@[k1] == pre[k1]);
                        assert(spec_story_in_prefix(stories@, i as int, pre[k1]));
                        let w = choose|w: int|
                            0 <= w < i && w < stories@.len() && story_eq(
                                pre[k1],
                                #[trigger] stories@[w],
                            );
                        assert(story_eq(pre[k1], stories@[w]));
                        assert(filtered@[k1].id@ == stories@[w].id@);
                        assert(w < i && i < stories@.len());
                        assert((stories@[w]).id@ != (stories@[i as int]).id@);
                    } else {
                        assert(filtered@[k1] == pre[k1]);
                        assert(filtered@[k2] == pre[k2]);
                    }
                }
            }
        }
        i += 1;
    }
    proof {
        assert(stories@.subrange(0, stories@.len() as int) =~= stories@);
        assert forall|k1: int, k2: int| 0 <= k1 < k2 < filtered@.len() implies !spec_files_overlap(
            (#[trigger] filtered@[k1]).target_files@,
            (#[trigger] filtered@[k2]).target_files@,
        ) by {
            if spec_files_overlap(filtered@[k1].target_files@, filtered@[k2].target_files@) {
                let n = stories@.len() as int;
                assert(spec_story_in_prefix(stories@, n, filtered@[k1]));
                assert(spec_story_in_prefix(stories@, n, filtered@[k2]));
                let w1 = choose|w: int|
                    0 <= w < n && w < stories@.len() && story_eq(
                        filtered@[k1],
                        #[trigger] stories@[w],
                    );
                let w2 = choose|w: int|
                    0 <= w < n && w < stories@.len() && story_eq(
                        filtered@[k2],
                        #[trigger] stories@[w],
                    );
                assert(story_eq(filtered@[k1], stories@[w1]));
                assert(story_eq(filtered@[k2], stories@[w2]));
                if w1 < w2 {
                    assert(spec_files_overlap(
                        stories@[w1].target_files@,
                        stories@[w2].target_files@,
                    ));
                    assert(spec_defers_id(conflicts@, spec_loser_id(stories@[w1], stories@[w2])));
                    assert(spec_loser_id(stories@[w1], stories@[w2]) == filtered@[k1].id@
                        || spec_loser_id(stories@[w1], stories@[w2]) == filtered@[k2].id@);
                } else if w2 < w1 {
                    assert(spec_files_overlap(
                        stories@[w2].target_files@,
                        stories@[w1].target_files@,
                    ));
                    assert(spec_defers_id(conflicts@, spec_loser_id(stories@[w2], stories@[w1])));
                    assert(spec_loser_id(stories@[w2], stories@[w1]) == filtered@[k1].id@
                        || spec_loser_id(stories@[w2], stories@[w1]) == filtered@[k2].id@);
                } else {
                    assert(filtered@[k1].id@ == filtered@[k2].id@);
                }
            }
        }
    }
    (filtered, conflicts)
}

} // verus!
