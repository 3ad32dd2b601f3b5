//! Post-batch reconciliation: issues found in the workspace and the batch
//! members they implicate for sequential retry.

use vstd::prelude::*;

use crate::collections::StringSet;
use crate::parallel::story::StoryNode;

verus! {

/// One issue found by the reconciliation engine.
#[derive(Clone, Debug)]
pub enum ReconciliationIssue {
    /// A git-level conflict touching the listed files.
    GitConflict { affected_files: Vec<String> },
    /// A type error in one file.
    TypeMismatch { file: String, error: String },
    /// A duplicated import; no file can be singled out.
    ImportDuplicate,
}

/// The outcome of one reconciliation pass.
#[derive(Clone, Debug)]
pub enum ReconciliationResult {
    /// The workspace is consistent.
    Clean,
    /// Inconsistencies were found.
    IssuesFound(Vec<ReconciliationIssue>),
}

/// Whether one text's UTF-8 bytes contain the other's, in either
/// direction.
pub open spec fn spec_contains_either(a: Seq<char>, b: Seq<char>) -> bool {
    (exists|k: int| crate::text::matches_at(
        vstd::utf8::encode_utf8(a),
        vstd::utf8::encode_utf8(b),
        k,
    )) || (exists|k: int| crate::text::matches_at(
        vstd::utf8::encode_utf8(b),
        vstd::utf8::encode_utf8(a),
        k,
    ))
}

/// Whether one byte string contains the other, in either direction.
fn contains_either_way(a: &str, b: &str) -> (r: bool)
    ensures
        r == spec_contains_either(a@, b@),
{
    crate::text::contains_sub(a.as_bytes(), b.as_bytes()) || crate::text::contains_sub(
        b.as_bytes(),
        a.as_bytes(),
    )
}

/// Whether `issue` names a file at all: a git conflict with a nonempty
/// file list, or a type mismatch outside the `unknown` placeholder.
pub open spec fn spec_issue_names_file(issue: ReconciliationIssue) -> bool {
    match issue {
        ReconciliationIssue::GitConflict { affected_files } => affected_files@.len() > 0,
        ReconciliationIssue::TypeMismatch { file, .. } => file@ != "unknown"@,
        ReconciliationIssue::ImportDuplicate => false,
    }
}

/// Whether `issue` names a file whose text and `target` contain one
/// another in either direction.
pub open spec fn spec_issue_hits(issue: ReconciliationIssue, target: Seq<char>) -> bool {
    match issue {
        ReconciliationIssue::GitConflict { affected_files } => exists|j: int|
            0 <= j < affected_files@.len() && spec_contains_either(
                target,
                (#[trigger] affected_files@[j])@,
            ),
        ReconciliationIssue::TypeMismatch { file, .. } => file@ != "unknown"@
            && spec_contains_either(target, file@),
        ReconciliationIssue::ImportDuplicate => false,
    }
}

/// Whether some issue names a file overlapping one of the story's target
/// files.
pub open spec fn spec_story_affected(issues: Seq<ReconciliationIssue>, story: StoryNode) -> bool {
    exists|k: int, t: int|
        0 <= k < issues.len() && 0 <= t < story.target_files@.len() && spec_issue_hits(
            #[trigger] issues[k],
            (#[trigger] story.target_files@[t])@,
        )
}

/// Whether the characters `f` appear among the texts `files`.
pub open spec fn spec_id_listed(files: Seq<String>, f: Seq<char>) -> bool {
    exists|x: int| 0 <= x < files.len() && (#[trigger] files[x])@ == f
}

/// Whether `issue` lists the file text `f`.
pub open spec fn spec_issue_lists_file(issue: ReconciliationIssue, f: Seq<char>) -> bool {
    match issue {
        ReconciliationIssue::GitConflict { affected_files } => spec_id_listed(affected_files@, f),
        ReconciliationIssue::TypeMismatch { file, .. } => file@ == f && f != "unknown"@,
        ReconciliationIssue::ImportDuplicate => false,
    }
}

/// Whether some issue lists the file text `f`.
pub open spec fn spec_file_from_issues(issues: Seq<ReconciliationIssue>, f: Seq<char>) -> bool {
    exists|k: int| 0 <= k < issues.len() && spec_issue_lists_file(#[trigger] issues[k], f)
}

/// Whether all of `issue`'s listed files appear among `files`.
pub open spec fn spec_issue_files_in(issue: ReconciliationIssue, files: Seq<String>) -> bool {
    match issue {
        ReconciliationIssue::GitConflict { affected_files } => forall|j: int|
            0 <= j < affected_files@.len() ==> spec_id_listed(
                files,
                (#[trigger] affected_files@[j])@,
            ),
        ReconciliationIssue::TypeMismatch { file, .. } => file@ != "unknown"@ ==> spec_id_listed(
            files,
            file@,
        ),
        ReconciliationIssue::ImportDuplicate => true,
    }
}

/// Whether one of the story's target files overlaps one of `files`.
pub open spec fn spec_story_hit_by(files: Seq<String>, story: StoryNode) -> bool {
    exists|t: int, x: int|
        0 <= t < story.target_files@.len() && 0 <= x < files.len() && spec_contains_either(
            (#[trigger] story.target_files@[t])@,
            (#[trigger] files[x])@,
        )
}

/// When `files` carries exactly the files the issues list, a story is hit
/// by `files` exactly when some issue affects it.
proof fn lemma_affected_iff(
    issues: Seq<ReconciliationIssue>,
    files: Seq<String>,
    story: StoryNode,
)
    requires
        forall|k: int| 0 <= k < issues.len() ==> spec_issue_files_in(#[trigger] issues[k], files),
        forall|x: int| 0 <= x < files.len() ==> spec_file_from_issues(
            issues,
            (#[trigger] files[x])@,
        ),
    ensures
        spec_story_hit_by(files, story) == spec_story_affected(issues, story),
{
    if spec_story_hit_by(files, story) {
        let (t0, x0): (int, int) = choose|t0: int, x0: int|
            0 <= t0 < story.target_files@.len() && 0 <= x0 < files.len() && spec_contains_either(
                (#[trigger] story.target_files@[t0])@,
                (#[trigger] files[x0])@,
            );
        assert(spec_file_from_issues(issues, files[x0]@));
        let k0: int = choose|k0: int|
            0 <= k0 < issues.len() && spec_issue_lists_file(#[trigger] issues[k0], files[x0]@);
        match issues[k0] {
            ReconciliationIssue::GitConflict { affected_files } => {
                let j: int = choose|j: int|
                    0 <= j < affected_files@.len() && (#[trigger] affected_files@[j])@ == files[
                        x0
                    ]@;
                assert(spec_contains_either(
                    story.target_files@[t0]@,
                    affected_files@[j]@,
                ));
                assert(spec_issue_hits(issues[k0], story.target_files@[t0]@));
            },
            ReconciliationIssue::TypeMismatch { file, error } => {
                assert(spec_issue_hits(issues[k0], story.target_files@[t0]@));
            },
            ReconciliationIssue::ImportDuplicate => {
                assert(false);
            },
        }
        assert(spec_story_affected(issues, story));
    }
    if spec_story_affected(issues, story) {
        let (k0, t0): (int, int) = choose|k0: int, t0: int|
            0 <= k0 < issues.len() && 0 <= t0 < story.target_files@.len() && spec_issue_hits(
                #[trigger] issues[k0],
                (#[trigger] story.target_files@[t0])@,
            );
        assert(spec_issue_files_in(issues[k0], files));
        match issues[k0] {
            ReconciliationIssue::GitConflict { affected_files } => {
                let j: int = choose|j: int|
                    0 <= j < affected_files@.len() && spec_contains_either(
                        story.target_files@[t0]@,
                        (#[trigger] affected_files@[j])@,
                    );
                assert(spec_id_listed(files, affected_files@[j]@));
                let x: int = choose|x: int|
                    0 <= x < files.len() && (#[trigger] files[x])@ == affected_files@[j]@;
                assert(spec_contains_either(story.target_files@[t0]@, files[x]@));
            },
            ReconciliationIssue::TypeMismatch { file, error } => {
                assert(spec_id_listed(files, file@));
                let x: int = choose|x: int|
                    0 <= x < files.len() && (#[trigger] files[x])@ == file@;
                assert(spec_contains_either(story.target_files@[t0]@, files[x]@));
            },
            ReconciliationIssue::ImportDuplicate => {
                assert(false);
            },
        }
        assert(spec_story_hit_by(files, story));
    }
}

/// Whether the characters `z` are the id of some batch story.
pub open spec fn spec_batch_id(batch_stories: Seq<StoryNode>, z: Seq<char>) -> bool {
    exists|s: int| 0 <= s < batch_stories.len() && (#[trigger] batch_stories[s]).id@ == z
}

/// A file list that covers an issue's files still covers them after it
/// grows at the end.
proof fn lemma_files_in_grow(
    issue: ReconciliationIssue,
    pre: Seq<String>,
    post: Seq<String>,
)
    requires
        spec_issue_files_in(issue, pre),
        pre.is_prefix_of(post),
    ensures
        spec_issue_files_in(issue, post),
{
    match issue {
        ReconciliationIssue::GitConflict { affected_files } => {
            assert forall|j: int| 0 <= j < affected_files@.len() implies spec_id_listed(
                post,
                (#[trigger] affected_files@[j])@,
            ) by {
                let w: int = choose|w: int|
                    0 <= w < pre.len() && (#[trigger] pre[w])@ == affected_files@[j]@;
                assert(post[w] == pre[w]);
            }
        },
        ReconciliationIssue::TypeMismatch { file, error } => {
            if file@ != "unknown"@ {
                let w: int = choose|w: int| 0 <= w < pre.len() && (#[trigger] pre[w])@ == file@;
                assert(post[w] == pre[w]);
            }
        },
        ReconciliationIssue::ImportDuplicate => {},
    }
}

/// The batch members implicated by reconciliation issues.
///
/// Affected files from git conflicts and type mismatches (other than the
/// `unknown` placeholder) implicate the batch stories whose target files
/// overlap them as substrings in either direction. An `ImportDuplicate`
/// issue, an empty file set, or a file set matching no story implicates
/// the whole batch, as the conservative worst case; otherwise every
/// returned id names a batch story.
pub fn get_affected_stories(
    issues: &Vec<ReconciliationIssue>,
    batch_story_ids: &Vec<String>,
    batch_stories: &Vec<StoryNode>,
) -> (r: Vec<String>)
    ensures
        r@.len() <= batch_story_ids@.len() || r@.len() <= batch_stories@.len(),
        (exists|k: int| 0 <= k < issues@.len() && (#[trigger] issues@[k]) is ImportDuplicate)
            ==> r@ == batch_story_ids@,
        r@ == batch_story_ids@ || forall|k: int| 0 <= k < r@.len() ==> spec_batch_id(
            batch_stories@,
            (#[trigger] r@[k])@,
        ),
        (crate::parallel::graph::spec_distinct_ids(batch_stories@) && (forall|k: int|
            0 <= k < issues@.len() ==> !((#[trigger] issues@[k]) is ImportDuplicate)) && (exists|
            k: int,
        | 0 <= k < issues@.len() && spec_issue_names_file(#[trigger] issues@[k])) && (exists|
            s: int,
        | 0 <= s < batch_stories@.len() && spec_story_affected(
            issues@,
            #[trigger] batch_stories@[s],
        ))) ==> forall|s: int|
            0 <= s < batch_stories@.len() ==> (spec_story_affected(
                issues@,
                #[trigger] batch_stories@[s],
            ) <==> spec_id_listed(r@, batch_stories@[s].id@)),
{
    let mut affected_files: Vec<String> = Vec::new();
    let mut i: usize = 0;
    while i < issues.len()
        invariant
            i <= issues@.len(),
            forall|k: int| 0 <= k < i ==> !((#[trigger] issues@[k]) is ImportDuplicate),
            forall|k: int| 0 <= k < i ==> spec_issue_files_in(
                #[trigger] issues@[k],
                affected_files@,
            ),
            forall|x: int| 0 <= x < affected_files@.len() ==> spec_file_from_issues(
                issues@,
                (#[trigger] affected_files@[x])@,
            ),
        decreases issues@.len() - i,
    {
        let ghost pre_files = affected_files@;
        match &issues[i] {
            ReconciliationIssue::GitConflict { affected_files: files } => {
                let mut j: usize = 0;
                while j < files.len()
                    invariant
                        j <= files@.len(),
                        i < issues@.len(),
                        issues@[i as int] matches ReconciliationIssue::GitConflict {
                            affected_files: f2,
                        } && f2 == *files,
                        forall|x: int| 0 <= x < j ==> spec_id_listed(
                            affected_files@,
                            (#[trigger] files@[x])@,
                        ),
                        forall|x: int| 0 <= x < affected_files@.len() ==> spec_file_from_issues(
                            issues@,
                            (#[trigger] affected_files@[x])@,
                        ),
                        forall|k: int| 0 <= k < i ==> spec_issue_files_in(
                            #[trigger] issues@[k],
                            affected_files@,
                        ),
                    decreases files@.len() - j,
                {
                    let ghost pre2 = affected_files@;
                    affected_files.push(files[j].clone());
                    proof {
                        assert(affected_files@.last()@ == files@[j as int]@);
                        assert forall|x: int| 0 <= x <= j implies spec_id_listed(
                            affected_files@,
                            (#[trigger] files@[x])@,
                        ) by {
                            if x < j {
                                let w: int = choose|w: int|
                                    0 <= w < pre2.len() && (#[trigger] pre2[w])@ == files@[x]@;
                                assert(affected_files@[w]@ == files@[x]@);
                            } else {
                                assert(affected_files@[affected_files@.len() - 1]@ == files@[
                                    x
                                ]@);
                            }
                        }
                        assert forall|x: int|
                            0 <= x < affected_files@.len() implies spec_file_from_issues(
                            issues@,
                            (#[trigger] affected_files@[x])@,
                        ) by {
                            if x < affected_files@.len() - 1 {
                                assert(affected_files@[x] == pre2[x]);
                            } else {
                                assert(spec_id_listed(files@, files@[j as int]@));
                                assert(spec_issue_lists_file(
                                    issues@[i as int],
                                    files@[j as int]@,
                                ));
                            }
                        }
                        assert forall|k: int| 0 <= k < i implies spec_issue_files_in(
                            #[trigger] issues@[k],
                            affected_files@,
                        ) by {
                            lemma_files_in_grow(issues@[k], pre2, affected_files@);
                        }
                    }
                    j += 1;
                }
                proof {
                    assert(spec_issue_files_in(issues@[i as int], affected_files@));
                }
            },
            ReconciliationIssue::TypeMismatch { file, .. } => {
                if !crate::text::str_eq(file.as_str(), "unknown") {
                    affected_files.push(file.clone());
                    proof {
                        reveal_strlit("unknown");
                        assert(affected_files@.last()@ == file@);
                        assert(spec_id_listed(affected_files@, file@));
                        assert(spec_issue_lists_file(issues@[i as int], file@));
                        assert forall|x: int|
                            0 <= x < affected_files@.len() implies spec_file_from_issues(
                            issues@,
                            (#[trigger] affected_files@[x])@,
                        ) by {
                            if x < affected_files@.len() - 1 {
                                assert(affected_files@[x] == pre_files[x]);
                            }
                        }
                        assert forall|k: int| 0 <= k < i implies spec_issue_files_in(
                            #[trigger] issues@[k],
                            affected_files@,
                        ) by {
                            lemma_files_in_grow(issues@[k], pre_files, affected_files@);
                        }
                        assert(spec_issue_files_in(issues@[i as int], affected_files@));
                    }
                } else {
                    proof {
                        reveal_strlit("unknown");
                        assert(spec_issue_files_in(issues@[i as int], affected_files@));
                    }
                }
            },
            ReconciliationIssue::ImportDuplicate => {
                return clone_ids(batch_story_ids);
            },
        }
        proof {
            assert(!(issues@[i as int] is ImportDuplicate));
        }
        i += 1;
    }
    if affected_files.len() == 0 {
        proof {
            if exists|k: int| 0 <= k < issues@.len() && spec_issue_names_file(
                #[trigger] issues@[k],
            ) {
                let k0: int = choose|k0: int|
                    0 <= k0 < issues@.len() && spec_issue_names_file(#[trigger] issues@[k0]);
                assert(spec_issue_files_in(issues@[k0], affected_files@));
                match issues@[k0] {
                    ReconciliationIssue::GitConflict { affected_files: fs } => {
                        assert(spec_id_listed(affected_files@, fs@[0]@));
                        assert(false);
                    },
                    ReconciliationIssue::TypeMismatch { file, error } => {
                        assert(spec_id_listed(affected_files@, file@));
                        assert(false);
                    },
                    ReconciliationIssue::ImportDuplicate => {
                        assert(false);
                    },
                }
            }
        }
        return clone_ids(batch_story_ids);
    }
    let mut affected_ids = StringSet::new();
    let mut s: usize = 0;
    while s < batch_stories.len()
        invariant
            s <= batch_stories@.len(),
            affected_ids.wf(),
            affected_ids.elems@.len() <= s,
            forall|z: Seq<char>| #[trigger] affected_ids.spec_contains(z) ==> spec_batch_id(
                batch_stories@,
                z,
            ),
            forall|k: int| 0 <= k < issues@.len() ==> spec_issue_files_in(
                #[trigger] issues@[k],
                affected_files@,
            ),
            forall|x: int| 0 <= x < affected_files@.len() ==> spec_file_from_issues(
                issues@,
                (#[trigger] affected_files@[x])@,
            ),
            forall|z: Seq<char>| #[trigger] affected_ids.spec_contains(z) <==> exists|y: int|
                0 <= y < s && (#[trigger] batch_stories@[y]).id@ == z && spec_story_affected(
                    issues@,
                    batch_stories@[y],
                ),
        decreases batch_stories@.len() - s,
    {
        let story = &batch_stories[s];
        let mut hit = false;
        let mut t: usize = 0;
        while t < story.target_files.len() && !hit
            invariant
                t <= story.target_files@.len(),
                hit ==> spec_story_hit_by(affected_files@, *story),
                !hit ==> forall|y: int, x: int|
                    0 <= y < t && 0 <= x < affected_files@.len() ==> !spec_contains_either(
                        (#[trigger] story.target_files@[y])@,
                        (#[trigger] affected_files@[x])@,
                    ),
            decreases story.target_files@.len() - t,
        {
            let mut f: usize = 0;
            while f < affected_files.len() && !hit
                invariant
                    f <= affected_files@.len(),
                    t < story.target_files@.len(),
                    hit ==> spec_story_hit_by(affected_files@, *story),
                    !hit ==> forall|y: int, x: int|
                        0 <= y < t && 0 <= x < affected_files@.len() ==> !spec_contains_either(
                            (#[trigger] story.target_files@[y])@,
                            (#[trigger] affected_files@[x])@,
                        ),
                    !hit ==> forall|x: int| 0 <= x < f ==> !spec_contains_either(
                        (story.target_files@[t as int])@,
                        (#[trigger] affected_files@[x])@,
                    ),
                decreases affected_files@.len() - f,
            {
                if contains_either_way(
                    story.target_files[t].as_str(),
                    affected_files[f].as_str(),
                ) {
                    hit = true;
                }
                f += 1;
            }
            t += 1;
        }
        proof {
            if !hit {
                assert(!spec_story_hit_by(affected_files@, *story));
            }
            lemma_affected_iff(issues@, affected_files@, *story);
            assert(hit == spec_story_affected(issues@, *story));
        }
        if hit {
            let ghost pre = affected_ids.elems@.len();
            let ghost pre_ids = affected_ids;
            affected_ids.insert(story.id.clone());
            proof {
                assert(affected_ids.elems@.len() <= pre + 1);
                assert(batch_stories@[s as int].id@ == batch_stories@[s as int].id@);
                assert forall|z: Seq<char>| #[trigger] affected_ids.spec_contains(z) implies
                    exists|y: int|
                        0 <= y < s + 1 && (#[trigger] batch_stories@[y]).id@ == z
                            && spec_story_affected(issues@, batch_stories@[y]) by {
                    if pre_ids.spec_contains(z) {
                        let y0: int = choose|y0: int|
                            0 <= y0 < s && (#[trigger] batch_stories@[y0]).id@ == z
                                && spec_story_affected(issues@, batch_stories@[y0]);
                        assert(0 <= y0 < s + 1 && batch_stories@[y0].id@ == z
                            && spec_story_affected(issues@, batch_stories@[y0]));
                    } else {
                        assert(z == batch_stories@[s as int].id@);
                        assert(spec_story_affected(issues@, batch_stories@[s as int]));
                    }
                }
            }
        } else {
            proof {
                assert forall|z: Seq<char>| #[trigger] affected_ids.spec_contains(z) implies
                    exists|y: int|
                        0 <= y < s + 1 && (#[trigger] batch_stories@[y]).id@ == z
                            && spec_story_affected(issues@, batch_stories@[y]) by {
                    let y0: int = choose|y0: int|
                        0 <= y0 < s && (#[trigger] batch_stories@[y0]).id@ == z
                            && spec_story_affected(issues@, batch_stories@[y0]);
                    assert(0 <= y0 < s + 1 && batch_stories@[y0].id@ == z
                        && spec_story_affected(issues@, batch_stories@[y0]));
                }
            }
        }
        s += 1;
    }
    if affected_ids.len() == 0 {
        proof {
            if exists|s2: int| 0 <= s2 < batch_stories@.len() && spec_story_affected(
                issues@,
                #[trigger] batch_stories@[s2],
            ) {
                let s0: int = choose|s0: int|
                    0 <= s0 < batch_stories@.len() && spec_story_affected(
                        issues@,
                        #[trigger] batch_stories@[s0],
                    );
                assert(affected_ids.spec_contains(batch_stories@[s0].id@));
                assert(false);
            }
        }
        return clone_ids(batch_story_ids);
    }
    let mut out: Vec<String> = Vec::new();
    let mut k: usize = 0;
    while k < affected_ids.len()
        invariant
            k <= affected_ids.elems@.len(),
            out@.len() == k,
            affected_ids.wf(),
            affected_ids.elems@.len() <= batch_stories@.len(),
            forall|z: Seq<char>| #[trigger] affected_ids.spec_contains(z) ==> spec_batch_id(
                batch_stories@,
                z,
            ),
            forall|j: int| 0 <= j < out@.len() ==> spec_batch_id(
                batch_stories@,
                (#[trigger] out@[j])@,
            ),
            forall|j: int| 0 <= j < out@.len() ==> (#[trigger] out@[j])@
                == affected_ids.elems@[j]@,
            forall|z: Seq<char>| #[trigger] affected_ids.spec_contains(z) <==> exists|y: int|
                0 <= y < batch_stories@.len() && (#[trigger] batch_stories@[y]).id@ == z
                    && spec_story_affected(issues@, batch_stories@[y]),
        decreases affected_ids.elems@.len() - k,
    {
        out.push(affected_ids.at(k).clone());
        proof {
            assert(affected_ids.spec_contains(affected_ids.elems@[k as int]@));
            assert(out@.last()@ == affected_ids.elems@[k as int]@);
        }
        k += 1;
    }
    proof {
        assert(out@.len() <= batch_stories@.len());
        if crate::parallel::graph::spec_distinct_ids(batch_stories@) {
        assert forall|s2: int| 0 <= s2 < batch_stories@.len() implies (spec_story_affected(
            issues@,
            #[trigger] batch_stories@[s2],
        ) <==> spec_id_listed(out@, batch_stories@[s2].id@)) by {
            if spec_story_affected(issues@, batch_stories@[s2]) {
                assert(affected_ids.spec_contains(batch_stories@[s2].id@));
                let w: int = choose|w: int|
                    0 <= w < affected_ids.elems@.len() && (#[trigger] affected_ids.elems@[w])@
                        == batch_stories@[s2].id@;
                assert(out@[w]@ == batch_stories@[s2].id@);
                assert(spec_id_listed(out@, batch_stories@[s2].id@));
            }
            if spec_id_listed(out@, batch_stories@[s2].id@) {
                let w: int = choose|w: int|
                    0 <= w < out@.len() && (#[trigger] out@[w])@ == batch_stories@[s2].id@;
                assert(affected_ids.elems@[w]@ == batch_stories@[s2].id@);
                assert(affected_ids.spec_contains(batch_stories@[s2].id@));
                let y0: int = choose|y0: int|
                    0 <= y0 < batch_stories@.len() && (#[trigger] batch_stories@[y0]).id@
                        == batch_stories@[s2].id@ && spec_story_affected(
                        issues@,
                        batch_stories@[y0],
                    );
                if crate::parallel::graph::spec_distinct_ids(batch_stories@) {
                    if y0 < s2 {
                        assert(batch_stories@[y0].id@ != batch_stories@[s2].id@);
                    } else if s2 < y0 {
                        assert(batch_stories@[s2].id@ != batch_stories@[y0].id@);
                    }
                    assert(y0 == s2);
                    assert(spec_story_affected(issues@, batch_stories@[s2]));
                }
            }
        }
        }
    }
    out
}

/// A copy of a list of ids.
fn clone_ids(ids: &Vec<String>) -> (r: Vec<String>)
    ensures
        r@ == ids@,
{
    let mut out: Vec<String> = Vec::new();
    let mut i: usize = 0;
    while i < ids.len()
        invariant
            i <= ids@.len(),
            out@ == ids@.subrange(0, i as int),
        decreases ids@.len() - i,
    {
        out.push(ids[i].clone());
        proof {
            assert(out@ =~= ids@.subrange(0, i + 1));
        }
        i += 1;
    }
    proof {
        assert(out@ =~= ids@);
    }
    out
}

} // verus!
