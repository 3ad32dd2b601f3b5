//! Stories: units of work with priorities, dependencies and a declared
//! file scope.

use vstd::prelude::*;

verus! {

/// One story of the set being scheduled.
#[derive(Clone, Debug)]
pub struct StoryNode {
    /// Stable identifier.
    pub id: String,
    /// Priority; a lower number is a higher priority.
    pub priority: u32,
    /// Whether the story already passes its gates.
    pub passes: bool,
    /// The files the story declares it will touch.
    pub target_files: Vec<String>,
    /// Identifiers of the stories this one depends on.
    pub depends_on: Vec<String>,
}

impl StoryNode {
    /// A story from its parts.
    pub fn new(
        id: String,
        priority: u32,
        passes: bool,
        target_files: Vec<String>,
        depends_on: Vec<String>,
    ) -> (r: Self)
        ensures
            r.id == id,
            r.priority == priority,
            r.passes == passes,
            r.target_files == target_files,
            r.depends_on == depends_on,
    {
        StoryNode { id, priority, passes, target_files, depends_on }
    }

    /// An observably equal copy of this story.
    pub fn duplicate(&self) -> (r: Self)
        ensures
            story_eq(r, *self),
    {
        let r = StoryNode {
            id: self.id.clone(),
            priority: self.priority,
            passes: self.passes,
            target_files: self.target_files.clone(),
            depends_on: self.depends_on.clone(),
        };
        proof {
            assert(r.target_files@ =~= self.target_files@);
            assert(r.depends_on@ =~= self.depends_on@);
        }
        r
    }
}

/// Whether two stories agree in every observable field.
pub open spec fn story_eq(a: StoryNode, b: StoryNode) -> bool {
    a.id@ == b.id@ && a.priority == b.priority && a.passes == b.passes && a.target_files@
        == b.target_files@ && a.depends_on@ == b.depends_on@
}

/// Whether `s` observably equals one of the first `n` stories of `ss`.
pub open spec fn spec_story_in_prefix(ss: Seq<StoryNode>, n: int, s: StoryNode) -> bool {
    exists|i: int| 0 <= i < n && i < ss.len() && story_eq(s, #[trigger] ss[i])
}

/// Whether the characters `z` name one of `files`.
pub open spec fn spec_in_files(files: Seq<String>, z: Seq<char>) -> bool {
    exists|j: int| 0 <= j < files.len() && (#[trigger] files[j]@) == z
}

/// Whether two file lists share an entry.
pub open spec fn spec_files_overlap(a: Seq<String>, b: Seq<String>) -> bool {
    exists|z: Seq<char>| #[trigger] spec_in_files(a, z) && spec_in_files(b, z)
}

/// Check whether two file lists share an entry.
pub fn files_overlap(a: &Vec<String>, b: &Vec<String>) -> (r: bool)
    ensures
        r == spec_files_overlap(a@, b@),
{
    let mut i: usize = 0;
    while i < a.len()
        invariant
            i <= a@.len(),
            forall|k: int| 0 <= k < i ==> !spec_in_files(b@, (#[trigger] a@[k])@),
        decreases a@.len() - i,
    {
        let mut j: usize = 0;
        while j < b.len()
            invariant
                i < a@.len(),
                j <= b@.len(),
                forall|k: int| 0 <= k < j ==> (#[trigger] b@[k]@) != a@[i as int]@,
            decreases b@.len() - j,
        {
            if crate::text::str_eq(a[i].as_str(), b[j].as_str()) {
                proof {
                    assert(spec_in_files(a@, a@[i as int]@));
                    assert(spec_in_files(b@, b@[j as int]@));
                }
                return true;
            }
            j += 1;
        }
        i += 1;
    }
    proof {
        assert forall|z: Seq<char>| #[trigger] spec_in_files(a@, z) implies !spec_in_files(b@, z) by {
            let k = choose|k: int| 0 <= k < a@.len() && (#[trigger] a@[k]@) == z;
            assert(!spec_in_files(b@, a@[k]@));
        }
    }
    false
}

} // verus!
