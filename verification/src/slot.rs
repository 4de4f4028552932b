//! Cache-slot naming: a logical filename maps to a final file name and a
//! temporary staging name used only during a write.

use vstd::prelude::*;
use vstd::string::StringExecFns;

verus! {

/// The two on-disk names of one cache slot. The final name holds the last
/// successfully fetched document; the temporary name is a transient staging
/// file and is never read as cached content.
pub struct CacheSlot {
    pub file_name: String,
    pub tmp_name: String,
}

impl CacheSlot {
    /// Well-formedness: the temporary name is the final name followed by
    /// the `.tmp` suffix, so the two names never collide.
    pub open spec fn wf(self) -> bool {
        self.tmp_name@ == self.file_name@ + ".tmp"@
    }

    pub fn new(filename: &str) -> (s: CacheSlot)
        ensures
            s.wf(),
            s.file_name@ == filename@,
    {
        let file_name = String::from_str(filename);
        let mut tmp_name = String::from_str(filename);
        tmp_name.append(".tmp");
        CacheSlot { file_name, tmp_name }
    }
}

/// The two names of a well-formed slot never collide: the temporary file
/// can be overwritten or left behind without ever standing for cached
/// content.
pub proof fn lemma_slot_names_differ(s: CacheSlot)
    requires
        s.wf(),
    ensures
        s.tmp_name@ != s.file_name@,
{
    reveal_strlit(".tmp");
    assert(s.tmp_name@.len() == s.file_name@.len() + 4);
}

} // verus!
