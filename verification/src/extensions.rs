//! Sets of device extensions, identified by their Vulkan names.

use vstd::prelude::*;

verus! {

/// The extension a device needs in order to present images to a surface.
pub const KHR_SWAPCHAIN: &'static str = "VK_KHR_swapchain";

/// The set of names that occur in `names`.
pub open spec fn name_set(names: Seq<String>) -> Set<Seq<char>> {
    Set::new(|name: Seq<char>| exists|i: int| 0 <= i < names.len() && names[i]@ == name)
}

/// A set of device extensions: those a device supports, or those an engine
/// requires of it.
///
/// The set is viewed as the set of its extension names; the order in which
/// names were added, and how often, does not matter.
#[derive(Debug)]
pub struct ExtensionSet {
    names: Vec<String>,
}

impl View for ExtensionSet {
    type V = Set<Seq<char>>;

    closed spec fn view(&self) -> Set<Seq<char>> {
        name_set(self.names@)
    }
}

impl ExtensionSet {
    /// The set without any extension.
    pub fn new() -> (set: ExtensionSet)
        ensures
            set@ == Set::<Seq<char>>::empty(),
    {
        let set = ExtensionSet { names: Vec::new() };
        assert(set@ =~= Set::<Seq<char>>::empty());
        set
    }

    /// The set of the extensions named in `names`.
    pub fn from_names(names: Vec<String>) -> (set: ExtensionSet)
        ensures
            set@ == name_set(names@),
    {
        ExtensionSet { names }
    }

    /// The names of the extensions in the set.
    pub fn names(&self) -> (names: &Vec<String>)
        ensures
            name_set(names@) == self@,
    {
        &self.names
    }

    /// Adds the extension called `name`.
    pub fn insert(&mut self, name: &str)
        ensures
            final(self)@ == old(self)@.insert(name@),
    {
        let owned = name.to_owned();
        self.names.push(owned);
        assert forall|n: Seq<char>| self@.contains(n) <==> old(self)@.insert(name@).contains(n) by {
            let before = old(self).names@;
            let after = self.names@;
            if n == name@ {
                assert(after[after.len() - 1]@ == n);
            }
            if old(self)@.contains(n) {
                let i = choose|i: int| 0 <= i < before.len() && before[i]@ == n;
                assert(after[i]@ == n);
            }
        }
        assert(self@ =~= old(self)@.insert(name@));
    }

    /// Whether the extension called `name` is in the set.
    pub fn contains(&self, name: &str) -> (found: bool)
        ensures
            found == self@.contains(name@),
    {
        let wanted = name.to_owned();
        let mut i: usize = 0;
        while i < self.names.len()
            invariant
                0 <= i <= self.names@.len(),
                wanted@ == name@,
                forall|j: int| 0 <= j < i ==> self.names@[j]@ != name@,
            decreases self.names@.len() - i,
        {
            if self.names[i] == wanted {
                return true;
            }
            i += 1;
        }
        false
    }

    /// Whether every extension of `other` is in this set.
    pub fn contains_all(&self, other: &ExtensionSet) -> (covered: bool)
        ensures
            covered == other@.subset_of(self@),
    {
        let mut i: usize = 0;
        while i < other.names.len()
            invariant
                0 <= i <= other.names@.len(),
                forall|j: int| 0 <= j < i ==> self@.contains(other.names@[j]@),
            decreases other.names@.len() - i,
        {
            if !self.contains(other.names[i].as_str()) {
                assert(other@.contains(other.names@[i as int]@));
                return false;
            }
            i += 1;
        }
        true
    }
}

impl Clone for ExtensionSet {
    /// A set of the same extensions.
    fn clone(&self) -> (copy: ExtensionSet)
        ensures
            copy@ == self@,
    {
        let mut names: Vec<String> = Vec::new();
        let mut i: usize = 0;
        while i < self.names.len()
            invariant
                0 <= i <= self.names@.len(),
                names@.len() == i,
                forall|j: int| 0 <= j < i ==> names@[j]@ == self.names@[j]@,
            decreases self.names@.len() - i,
        {
            names.push(self.names[i].clone());
            i += 1;
        }
        let copy = ExtensionSet { names };
        assert forall|n: Seq<char>| copy@.contains(n) <==> self@.contains(n) by {
            if copy@.contains(n) {
                let j = choose|j: int| 0 <= j < copy.names@.len() && copy.names@[j]@ == n;
                assert(self.names@[j]@ == n);
            }
            if self@.contains(n) {
                let j = choose|j: int| 0 <= j < self.names@.len() && self.names@[j]@ == n;
                assert(copy.names@[j]@ == n);
            }
        }
        assert(copy@ =~= self@);
        copy
    }
}

/// The extensions that the engine requires of its device: the swapchain
/// extension, and nothing else.
pub fn required_device_extensions() -> (required: ExtensionSet)
    ensures
        required@ == set![KHR_SWAPCHAIN@],
{
    let mut required = ExtensionSet::new();
    required.insert(KHR_SWAPCHAIN);
    assert(required@ =~= set![KHR_SWAPCHAIN@]);
    required
}

} // verus!
