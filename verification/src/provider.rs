//! Routing entries.

use vstd::prelude::*;

verus! {

/// What a [`Mapping`] stands for in contracts: its two strings as sequences
/// of characters.
pub struct MappingView {
    pub host: Seq<char>,
    pub target: Seq<char>,
}

/// One routing entry: requests addressed to `host` go to `target`.
///
/// `host` is compared verbatim with the authority of a request, so it
/// usually carries a port (`example.test:443`).
#[derive(Debug)]
pub struct Mapping {
    pub host: String,
    pub target: String,
}

impl View for Mapping {
    type V = MappingView;

    open spec fn view(&self) -> MappingView {
        MappingView { host: self.host@, target: self.target@ }
    }
}

impl DeepView for Mapping {
    type V = MappingView;

    open spec fn deep_view(&self) -> MappingView {
        self@
    }
}

impl Mapping {
    pub fn new(host: String, target: String) -> (mapping: Mapping)
        ensures
            mapping.host == host,
            mapping.target == target,
    {
        Mapping { host, target }
    }
}

impl Clone for Mapping {
    fn clone(&self) -> (copy: Mapping)
        ensures
            copy == *self,
    {
        Mapping { host: self.host.clone(), target: self.target.clone() }
    }
}

/// Two entries are the same entry when they route the same host, whatever
/// their targets.
impl PartialEq for Mapping {
    fn eq(&self, other: &Mapping) -> (same: bool) {
        self.host == other.host
    }
}

impl vstd::std_specs::cmp::PartialEqSpecImpl for Mapping {
    open spec fn obeys_eq_spec() -> bool {
        true
    }

    open spec fn eq_spec(&self, other: &Mapping) -> bool {
        self.host@ == other.host@
    }
}

} // verus!
