//! Execution state of a run: in-flight, completed and failed stories, and
//! the file-lock map with all-or-nothing acquisition.

use vstd::prelude::*;

use crate::collections::{StringMap, StringSet};
use crate::parallel::story::spec_in_files;

verus! {

/// The story that owns a lock on `path`, by its characters.
pub open spec fn spec_owner(m: StringMap<String>, path: Seq<char>) -> Option<Seq<char>> {
    match m.spec_get(path) {
        Some(s) => Some(s@),
        None => None,
    }
}

/// Execution state across parallel story executions.
#[derive(Clone, Debug)]
pub struct ParallelExecutionState {
    /// Stories currently being executed.
    pub in_flight: StringSet,
    /// Stories that have completed successfully.
    pub completed: StringSet,
    /// Stories that have failed, with their error messages.
    pub failed: StringMap<String>,
    /// Files currently locked, mapped to the owning story id.
    pub locked_files: StringMap<String>,
}

impl ParallelExecutionState {
    /// All parts well-formed.
    pub open spec fn wf(&self) -> bool {
        self.in_flight.wf() && self.completed.wf() && self.failed.wf() && self.locked_files.wf()
    }

    /// A fresh, empty state.
    pub fn new() -> (r: Self)
        ensures
            r.wf(),
            r.in_flight.elems@.len() == 0,
            r.completed.elems@.len() == 0,
            r.failed.entries@.len() == 0,
            r.locked_files.entries@.len() == 0,
    {
        ParallelExecutionState {
            in_flight: StringSet::new(),
            completed: StringSet::new(),
            failed: StringMap::new(),
            locked_files: StringMap::new(),
        }
    }

    /// Whether every one of `target_files` is unlocked or already owned by
    /// `story_id`.
    pub open spec fn spec_can_acquire(&self, story_id: Seq<char>, target_files: Seq<String>) -> bool {
        forall|j: int| 0 <= j < target_files.len() ==> (spec_owner(
            self.locked_files,
            (#[trigger] target_files[j])@,
        ) is None || spec_owner(self.locked_files, target_files[j]@) == Some(story_id))
    }

    /// Attempt to acquire locks on `target_files` for `story_id`.
    ///
    /// Acquisition is all-or-nothing: it succeeds, leaving every target
    /// file locked by the story and every other lock unchanged, exactly
    /// when no target file is locked by another story; on failure the
    /// whole state is left as it was.
    pub fn acquire_locks(&mut self, story_id: &str, target_files: &Vec<String>) -> (r: bool)
        requires
            old(self).wf(),
        ensures
            final(self).wf(),
            r == old(self).spec_can_acquire(story_id@, target_files@),
            !r ==> *final(self) == *old(self),
            r ==> forall|z: Seq<char>|
                #![trigger spec_owner(final(self).locked_files, z)]
                spec_owner(final(self).locked_files, z) == (if spec_in_files(target_files@, z) {
                    Some(story_id@)
                } else {
                    spec_owner(old(self).locked_files, z)
                }),
            final(self).in_flight == old(self).in_flight,
            final(self).completed == old(self).completed,
            final(self).failed == old(self).failed,
    {
        let mut i: usize = 0;
        while i < target_files.len()
            invariant
                i <= target_files@.len(),
                self.wf(),
                *self == *old(self),
                forall|j: int| 0 <= j < i ==> (spec_owner(
                    self.locked_files,
                    (#[trigger] target_files@[j])@,
                ) is None || spec_owner(self.locked_files, target_files@[j]@) == Some(story_id@)),
            decreases target_files@.len() - i,
        {
            match self.locked_files.get(target_files[i].as_str()) {
                Some(owner) => {
                    if !crate::text::str_eq(owner.as_str(), story_id) {
                        proof {
                            assert(spec_owner(self.locked_files, target_files@[i as int]@)
                                == Some(owner@));
                        }
                        return false;
                    }
                },
                None => {},
            }
            i += 1;
        }
        let mut k: usize = 0;
        while k < target_files.len()
            invariant
                k <= target_files@.len(),
                self.wf(),
                self.in_flight == old(self).in_flight,
                self.completed == old(self).completed,
                self.failed == old(self).failed,
                forall|z: Seq<char>|
                    #![trigger spec_owner(self.locked_files, z)]
                    spec_owner(self.locked_files, z) == (if exists|j: int|
                        0 <= j < k && (#[trigger] target_files@[j])@ == z {
                        Some(story_id@)
                    } else {
                        spec_owner(old(self).locked_files, z)
                    }),
            decreases target_files@.len() - k,
        {
            let path = target_files[k].clone();
            let owner = String::from_str(story_id);
            let ghost pre_map = self.locked_files;
            proof {
                assert(path@ == target_files@[k as int]@);
            }
            self.locked_files.insert(path, owner);
            proof {
                assert forall|z: Seq<char>| true implies #[trigger] spec_owner(
                    self.locked_files,
                    z,
                ) == (if exists|j: int| 0 <= j < k + 1 && (#[trigger] target_files@[j])@ == z {
                    Some(story_id@)
                } else {
                    spec_owner(old(self).locked_files, z)
                }) by {
                    if exists|j: int| 0 <= j < k + 1 && (#[trigger] target_files@[j])@ == z {
                        let j = choose|j: int|
                            0 <= j < k + 1 && (#[trigger] target_files@[j])@ == z;
                        if j < k {
                            assert(exists|j2: int|
                                0 <= j2 < k && (#[trigger] target_files@[j2])@ == z);
                            if z != target_files@[k as int]@ {
                                assert(spec_owner(pre_map, z) == Some(story_id@));
                                assert(self.locked_files.spec_get(z) == pre_map.spec_get(z));
                                assert(spec_owner(self.locked_files, z) == Some(story_id@));
                            } else {
                                assert(self.locked_files.spec_get(z) == Some(owner));
                            }
                        } else {
                            assert(z == target_files@[k as int]@);
                            assert(self.locked_files.spec_get(z) == Some(owner));
                        }
                    } else {
                        assert(forall|j2: int|
                            0 <= j2 < k ==> (#[trigger] target_files@[j2])@ != z);
                        assert(z != target_files@[k as int]@);
                        assert(spec_owner(pre_map, z) == spec_owner(old(self).locked_files, z));
                        assert(self.locked_files.spec_get(z) == pre_map.spec_get(z));
                        assert(spec_owner(self.locked_files, z) == spec_owner(
                            old(self).locked_files,
                            z,
                        ));
                    }
                }
            }
            k += 1;
        }
        proof {
            assert forall|z: Seq<char>| true implies #[trigger] spec_owner(self.locked_files, z)
                == (if spec_in_files(target_files@, z) {
                Some(story_id@)
            } else {
                spec_owner(old(self).locked_files, z)
            }) by {
                if spec_in_files(target_files@, z) {
                    let j = choose|j: int| 0 <= j < target_files@.len() && (
                    #[trigger] target_files@[j]@) == z;
                }
            }
        }
        true
    }

    /// Release every file lock held by `story_id`, leaving all other locks
    /// unchanged.
    pub fn release_locks(&mut self, story_id: &str)
        requires
            old(self).wf(),
        ensures
            final(self).wf(),
            forall|z: Seq<char>|
                #![trigger spec_owner(final(self).locked_files, z)]
                spec_owner(final(self).locked_files, z) == (if spec_owner(
                    old(self).locked_files,
                    z,
                ) == Some(story_id@) {
                    None::<Seq<char>>
                } else {
                    spec_owner(old(self).locked_files, z)
                }),
            final(self).in_flight == old(self).in_flight,
            final(self).completed == old(self).completed,
            final(self).failed == old(self).failed,
    {
        loop
            invariant
                self.wf(),
                self.in_flight == old(self).in_flight,
                self.completed == old(self).completed,
                self.failed == old(self).failed,
                // Nothing new appears, and non-owned locks are kept.
                forall|z: Seq<char>|
                    #![trigger spec_owner(self.locked_files, z)]
                    (spec_owner(self.locked_files, z) is Some ==> spec_owner(self.locked_files, z)
                        == spec_owner(old(self).locked_files, z)),
                forall|z: Seq<char>|
                    #![trigger spec_owner(self.locked_files, z)]
                    (spec_owner(old(self).locked_files, z) matches Some(o) && o != story_id@
                        ==> spec_owner(self.locked_files, z) == spec_owner(
                        old(self).locked_files,
                        z,
                    )),
            decreases self.locked_files.entries@.len(),
        {
            let mut found: Option<String> = None;
            let mut i: usize = 0;
            while i < self.locked_files.len()
                invariant
                    i <= self.locked_files.entries@.len(),
                    found is None ==> forall|j: int| 0 <= j < i ==> (
                    #[trigger] self.locked_files.entries@[j].1@) != story_id@,
                    found matches Some(key) ==> exists|j: int|
                        0 <= j < self.locked_files.entries@.len()
                            && (#[trigger] self.locked_files.entries@[j].0)@ == key@
                            && self.locked_files.entries@[j].1@ == story_id@,
                decreases self.locked_files.entries@.len() - i,
            {
                if found.is_none() && crate::text::str_eq(
                    self.locked_files.at(i).1.as_str(),
                    story_id,
                ) {
                    found = Some(self.locked_files.at(i).0.clone());
                    proof {
                        assert(self.locked_files.entries@[i as int].1@ == story_id@);
                    }
                }
                i += 1;
            }
            match found {
                Some(key) => {
                    proof {
                        let j = choose|j: int|
                            0 <= j < self.locked_files.entries@.len()
                                && (#[trigger] self.locked_files.entries@[j].0)@ == key@
                                && self.locked_files.entries@[j].1@ == story_id@;
                        let w = choose|w: int|
                            0 <= w < self.locked_files.entries@.len()
                                && (#[trigger] self.locked_files.entries@[w].0@) == key@;
                        assert(w == j);
                        assert(spec_owner(self.locked_files, key@) == Some(story_id@));
                    }
                    let ghost pre = *self;
                    let ghost pre_len = self.locked_files.entries@.len();
                    self.locked_files.remove(key.as_str());
                    proof {
                        assert(self.locked_files.entries@.len() < pre_len);
                        assert forall|z: Seq<char>|
                            spec_owner(self.locked_files, z) is Some implies #[trigger] spec_owner(
                            self.locked_files,
                            z,
                        ) == spec_owner(old(self).locked_files, z) by {
                            assert(z != key@);
                            assert(spec_owner(self.locked_files, z) == spec_owner(
                                pre.locked_files,
                                z,
                            ));
                        }
                        assert forall|z: Seq<char>|
                            spec_owner(old(self).locked_files, z) matches Some(o) && o != story_id@
                                implies #[trigger] spec_owner(self.locked_files, z) == spec_owner(
                            old(self).locked_files,
                            z,
                        ) by {
                            if z == key@ {
                                assert(spec_owner(pre.locked_files, key@) == Some(story_id@));
                                assert(spec_owner(old(self).locked_files, key@) == Some(
                                    story_id@,
                                ));
                            } else {
                                assert(spec_owner(self.locked_files, z) == spec_owner(
                                    pre.locked_files,
                                    z,
                                ));
                            }
                        }
                    }
                },
                None => {
                    proof {
                        assert(i == self.locked_files.entries@.len());
                        assert forall|z: Seq<char>| spec_owner(old(self).locked_files, z) == Some(
                            story_id@,
                        ) implies #[trigger] spec_owner(self.locked_files, z) is None by {
                            if self.locked_files.spec_contains_key(z) {
                                let j = choose|j: int|
                                    0 <= j < self.locked_files.entries@.len() && (
                                    #[trigger] self.locked_files.entries@[j].0@) == z;
                                assert(0 <= j < i);
                                assert(self.locked_files.entries@[j].1@ != story_id@);
                                assert(spec_owner(self.locked_files, z) == Some(
                                    self.locked_files.entries@[j].1@,
                                ));
                                assert(spec_owner(self.locked_files, z) != Some(story_id@));
                                assert(spec_owner(self.locked_files, z) == spec_owner(
                                    old(self).locked_files,
                                    z,
                                ));
                                assert(false);
                            }
                        }
                    }
                    return ;
                },
            }
        }
    }
}

/// Acquiring a story's locks and then releasing that story returns the
/// lock map to its prior state, provided the story held no locks before.
///
/// `m0` is the map before acquisition, `m1` after a successful
/// acquisition of `files` for `story`, and `m2` after the release; the
/// premises are exactly what the two operations ensure.
pub proof fn lemma_lock_round_trip(
    m0: StringMap<String>,
    m1: StringMap<String>,
    m2: StringMap<String>,
    story: Seq<char>,
    files: Seq<String>,
)
    requires
        forall|z: Seq<char>| #[trigger] spec_owner(m0, z) != Some(story),
        forall|j: int| 0 <= j < files.len() ==> spec_owner(m0, (#[trigger] files[j])@) is None
            || spec_owner(m0, files[j]@) == Some(story),
        forall|z: Seq<char>|
            #![trigger spec_owner(m1, z)]
            spec_owner(m1, z) == (if spec_in_files(files, z) {
                Some(story)
            } else {
                spec_owner(m0, z)
            }),
        forall|z: Seq<char>|
            #![trigger spec_owner(m2, z)]
            spec_owner(m2, z) == (if spec_owner(m1, z) == Some(story) {
                None::<Seq<char>>
            } else {
                spec_owner(m1, z)
            }),
    ensures
        forall|z: Seq<char>| #[trigger] spec_owner(m2, z) == spec_owner(m0, z),
{
    assert forall|z: Seq<char>| #[trigger] spec_owner(m2, z) == spec_owner(m0, z) by {
        if spec_in_files(files, z) {
            let j = choose|j: int| 0 <= j < files.len() && (#[trigger] files[j]@) == z;
            assert(spec_owner(m0, z) != Some(story));
            assert(spec_owner(m0, files[j]@) is None || spec_owner(m0, files[j]@) == Some(story));
            assert(spec_owner(m1, z) == Some(story));
            assert(spec_owner(m2, z) is None);
        } else {
            assert(spec_owner(m1, z) == spec_owner(m0, z));
        }
    }
}

} // verus!

verus! {

/// File exclusivity: a file path has at most one owning story at a time —
/// two stories both owning the same lock are the same story.
pub proof fn lemma_file_exclusivity(
    m: StringMap<String>,
    a: Seq<char>,
    b: Seq<char>,
    f: Seq<char>,
)
    requires
        spec_owner(m, f) == Some(a),
        spec_owner(m, f) == Some(b),
    ensures
        a == b,
{
}

} // verus!
