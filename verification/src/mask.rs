//! Field masks: the list of field names that an update request declares
//! authoritative. Fields outside the mask must be ignored even if the
//! payload carries a value for them.

use vstd::prelude::*;

verus! {

/// An ordered list of field-path strings naming the fields of an update
/// payload that are authoritative.
#[derive(Clone, Debug, PartialEq, Eq)]
pub struct FieldMask {
    /// The field names, as the client sent them.
    pub paths: Vec<String>,
}

/// Whether a field name occurs in a mask.
pub open spec fn mask_contains(paths: Seq<Seq<char>>, name: Seq<char>) -> bool {
    exists|i: int| 0 <= i < paths.len() && paths[i] == name
}

/// The sequence of field names a mask holds.
pub open spec fn mask_paths(mask: FieldMask) -> Seq<Seq<char>> {
    mask.paths.deep_view()
}

impl FieldMask {
    /// Whether this mask names the given field.
    pub fn contains(&self, name: &str) -> (r: bool)
        ensures
            r == mask_contains(mask_paths(*self), name@),
    {
        let wanted: String = name.to_owned();
        let n = self.paths.len();
        let mut i: usize = 0;
        while i < n
            invariant
                wanted@ == name@,
                n == self.paths.len(),
                0 <= i <= n,
                forall|j: int| 0 <= j < i ==> self.paths@[j]@ != name@,
            decreases n - i,
        {
            if self.paths[i] == wanted {
                assert(mask_paths(*self)[i as int] == name@);
                return true;
            }
            i = i + 1;
        }
        assert(forall|j: int| 0 <= j < self.paths@.len() ==> mask_paths(*self)[j] != name@);
        false
    }
}

} // verus!
