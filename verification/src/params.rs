use vstd::prelude::*;

verus! {

/// The parameters of a control sequence: an ordered list of groups, each an
/// ordered list of 16-bit values. A group holds more than one value where
/// sub-parameters were separated by colons. A sequence without parameters has
/// no group at all.
pub struct Params {
    groups: Vec<Vec<u16>>,
}

impl View for Params {
    type V = Seq<Seq<u16>>;

    closed spec fn view(&self) -> Seq<Seq<u16>> {
        self.groups.deep_view()
    }
}

impl Params {
    /// The parameters made of the given groups, in their order.
    pub fn from_groups(groups: Vec<Vec<u16>>) -> (r: Params)
        ensures
            r@ == groups.deep_view(),
    {
        Params { groups }
    }

    /// The groups, in their order.
    pub fn groups(&self) -> (r: &Vec<Vec<u16>>)
        ensures
            r.deep_view() == self@,
    {
        &self.groups
    }

    /// The number of groups.
    pub fn len(&self) -> (r: usize)
        ensures
            r == self@.len(),
    {
        self.groups.len()
    }

    /// Whether there is no group.
    pub fn is_empty(&self) -> (r: bool)
        ensures
            r == (self@.len() == 0),
    {
        self.groups.len() == 0
    }
}

impl Default for Params {
    /// No parameters.
    fn default() -> (r: Params)
        ensures
            r@ == Seq::<Seq<u16>>::empty(),
    {
        Params { groups: Vec::new() }
    }
}

} // verus!
