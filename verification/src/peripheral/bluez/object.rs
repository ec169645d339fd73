//! One entry of the broker's list of managed objects.

use vstd::prelude::*;

verus! {

/// `needle` occurs in `haystack` as a run of consecutive characters.
pub open spec fn is_substring(needle: Seq<char>, haystack: Seq<char>) -> bool {
    exists|start: int|
        0 <= start && start + needle.len() <= haystack.len() && #[trigger] haystack.subrange(
            start,
            start + needle.len(),
        ) == needle
}

/// `str::contains` with a string as the pattern: whether the pattern occurs
/// somewhere in the text.
#[verifier::external_body]
pub(crate) fn str_contains(haystack: &str, needle: &str) -> (found: bool)
    ensures
        found == is_substring(needle@, haystack@),
{
    haystack.contains(needle)
}

/// An object that the broker manages: its path and the names of the
/// interfaces it offers.
#[derive(Clone, Debug, PartialEq, Eq)]
pub struct ManagedObject {
    pub path: String,
    pub interfaces: Vec<String>,
}

/// What a [`ManagedObject`] holds, as sequences of characters.
pub struct ManagedObjectView {
    pub path: Seq<char>,
    pub interfaces: Seq<Seq<char>>,
}

impl ManagedObjectView {
    /// The object offers the interface `name`.
    pub open spec fn has_interface(self, name: Seq<char>) -> bool {
        self.interfaces.contains(name)
    }
}

impl View for ManagedObject {
    type V = ManagedObjectView;

    open spec fn view(&self) -> ManagedObjectView {
        ManagedObjectView { path: self.path@, interfaces: self.interfaces.deep_view() }
    }
}

impl DeepView for ManagedObject {
    type V = ManagedObjectView;

    open spec fn deep_view(&self) -> ManagedObjectView {
        self@
    }
}

impl ManagedObject {
    /// Whether the object offers the interface `name`.
    pub fn has_interface(&self, name: &str) -> (found: bool)
        ensures
            found == self@.has_interface(name@),
    {
        let wanted = name.to_string();
        let mut i: usize = 0;
        while i < self.interfaces.len()
            invariant
                i <= self.interfaces.len(),
                wanted@ == name@,
                forall|j: int| 0 <= j < i ==> self@.interfaces[j] != name@,
            decreases self.interfaces.len() - i,
        {
            if self.interfaces[i] == wanted {
                assert(self@.interfaces[i as int] == name@);
                return true;
            }
            i += 1;
        }
        false
    }
}

} // verus!
