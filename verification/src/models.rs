use vstd::prelude::*;

verus! {

/// A small record that the storage module round-trips through each of its
/// serialization formats.
#[derive(Debug)]
pub struct Person {
    pub name: String,
    pub age: u32,
}

impl PartialEq for Person {
    fn eq(&self, other: &Person) -> (r: bool) {
        self.name == other.name && self.age == other.age
    }
}

impl vstd::std_specs::cmp::PartialEqSpecImpl for Person {
    open spec fn obeys_eq_spec() -> bool {
        true
    }

    open spec fn eq_spec(&self, other: &Person) -> bool {
        self.name@ == other.name@ && self.age == other.age
    }
}

} // verus!
