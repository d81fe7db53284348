//! The routing table: an ordered list of entries in which the first entry
//! for a host is the one that routes it.

use crate::provider::{Mapping, MappingView};
use crate::text::same_text;
use vstd::prelude::*;

verus! {

/// Whether `i` is the place of the first entry of `table` for `host`.
pub open spec fn is_first_match(table: Seq<MappingView>, host: Seq<char>, i: int) -> bool {
    &&& 0 <= i < table.len()
    &&& table[i].host == host
    &&& forall|j: int| 0 <= j < i ==> table[j].host != host
}

/// The place of the first entry of `table` for `host`, if it has one.
pub open spec fn first_match(table: Seq<MappingView>, host: Seq<char>) -> Option<int> {
    if exists|i: int| is_first_match(table, host, i) {
        Some(choose|i: int| is_first_match(table, host, i))
    } else {
        None
    }
}

/// The entry that routes `host`: the first one for it in table order.
pub open spec fn resolved(table: Seq<MappingView>, host: Seq<char>) -> Option<MappingView> {
    match first_match(table, host) {
        Some(i) => Some(table[i]),
        None => None,
    }
}

/// The table after an entry was added: the entry stands last, and the first
/// earlier entry for its host, if there was one, is gone.
pub open spec fn with_mapping(table: Seq<MappingView>, mapping: MappingView) -> Seq<MappingView> {
    match first_match(table, mapping.host) {
        Some(i) => table.remove(i).push(mapping),
        None => table.push(mapping),
    }
}

/// The table after the first entry for `host`, if there was one, was taken
/// out.
pub open spec fn without_host(table: Seq<MappingView>, host: Seq<char>) -> Seq<MappingView> {
    match first_match(table, host) {
        Some(i) => table.remove(i),
        None => table,
    }
}

/// A host has at most one first entry, and `first_match` names it.
pub proof fn lemma_first_match(table: Seq<MappingView>, host: Seq<char>, i: int)
    requires
        is_first_match(table, host, i),
    ensures
        first_match(table, host) == Some(i),
{
}

/// A host that no entry names has no first entry.
pub proof fn lemma_no_match(table: Seq<MappingView>, host: Seq<char>)
    requires
        forall|j: int| 0 <= j < table.len() ==> table[j].host != host,
    ensures
        first_match(table, host) is None,
{
}

/// A host that some entry names has a first entry, at or before that one.
pub proof fn lemma_some_match(table: Seq<MappingView>, host: Seq<char>, i: int)
    requires
        0 <= i < table.len(),
        table[i].host == host,
    ensures
        first_match(table, host) is Some,
        is_first_match(table, host, first_match(table, host)->0),
        first_match(table, host)->0 <= i,
    decreases i,
{
    if exists|j: int| 0 <= j < i && table[j].host == host {
        let j = choose|j: int| 0 <= j < i && table[j].host == host;
        lemma_some_match(table, host, j);
    } else {
        lemma_first_match(table, host, i);
    }
}

/// Whether no two entries of `table` name the same host.
pub open spec fn unique_hosts(table: Seq<MappingView>) -> bool {
    forall|i: int, j: int| 0 <= i < j < table.len() ==> table[i].host != table[j].host
}

/// Taking an entry out changes nothing for the hosts of other entries.
pub proof fn lemma_remove_keeps_others(table: Seq<MappingView>, i: int, host: Seq<char>)
    requires
        0 <= i < table.len(),
        table[i].host != host,
    ensures
        resolved(table.remove(i), host) == resolved(table, host),
{
    let rest = table.remove(i);
    match first_match(table, host) {
        Some(k) => {
            let moved = if k < i {
                k
            } else {
                k - 1
            };
            lemma_first_match(rest, host, moved);
        },
        None => {
            assert forall|j: int| 0 <= j < rest.len() implies rest[j].host != host by {
                let from = if j < i {
                    j
                } else {
                    j + 1
                };
                if table[from].host == host {
                    lemma_some_match(table, host, from);
                }
            }
        },
    }
}

/// Adding an entry changes nothing for other hosts.
pub proof fn lemma_add_keeps_others(
    table: Seq<MappingView>,
    mapping: MappingView,
    host: Seq<char>,
)
    requires
        host != mapping.host,
    ensures
        resolved(with_mapping(table, mapping), host) == resolved(table, host),
{
    let kept = without_host(table, mapping.host);
    assert(resolved(kept, host) == resolved(table, host)) by {
        if let Some(i) = first_match(table, mapping.host) {
            lemma_remove_keeps_others(table, i, host);
        }
    }
    let added = kept.push(mapping);
    match first_match(kept, host) {
        Some(k) => {
            lemma_first_match(added, host, k);
        },
        None => {
            assert forall|j: int| 0 <= j < added.len() implies added[j].host != host by {
                if j < kept.len() && kept[j].host == host {
                    lemma_some_match(kept, host, j);
                }
            }
        },
    }
}

/// In a table without two entries for one host, an added entry routes its
/// host, and the table still has no two entries for one host.
pub proof fn lemma_add_routes_host(table: Seq<MappingView>, mapping: MappingView)
    requires
        unique_hosts(table),
    ensures
        unique_hosts(with_mapping(table, mapping)),
        resolved(with_mapping(table, mapping), mapping.host) == Some(mapping),
{
    let kept = without_host(table, mapping.host);
    let added = kept.push(mapping);
    assert forall|j: int| 0 <= j < kept.len() implies kept[j].host != mapping.host by {
        if kept[j].host == mapping.host {
            lemma_some_match(kept, mapping.host, j);
        }
    }
    lemma_first_match(added, mapping.host, kept.len() as int);
}

/// In a table without two entries for one host, a host that was taken out
/// is no longer routed, and the table still has no two entries for one host.
pub proof fn lemma_remove_unroutes_host(table: Seq<MappingView>, host: Seq<char>)
    requires
        unique_hosts(table),
    ensures
        unique_hosts(without_host(table, host)),
        resolved(without_host(table, host), host) is None,
{
}

/// The persisted configuration: the routing table.
#[derive(Debug)]
pub struct MyConfig {
    pub mappings: Vec<Mapping>,
}

impl View for MyConfig {
    type V = Seq<MappingView>;

    open spec fn view(&self) -> Seq<MappingView> {
        self.mappings.deep_view()
    }
}

impl Default for MyConfig {
    fn default() -> (config: MyConfig)
        ensures
            config@ == Seq::<MappingView>::empty(),
    {
        MyConfig { mappings: Vec::new() }
    }
}

impl MyConfig {
    /// Where the first entry for `host` stands.
    pub fn position(&self, host: &str) -> (found: Option<usize>)
        ensures
            match found {
                Some(i) => first_match(self@, host@) == Some(i as int),
                None => first_match(self@, host@) is None,
            },
    {
        let mut i: usize = 0;
        while i < self.mappings.len()
            invariant
                i <= self.mappings.len(),
                forall|j: int| 0 <= j < i ==> self@[j].host != host@,
            decreases self.mappings.len() - i,
        {
            if same_text(self.mappings[i].host.as_str(), host) {
                proof {
                    lemma_first_match(self@, host@, i as int);
                }
                return Some(i);
            }
            i += 1;
        }
        None
    }

    /// The entry that routes `host`.
    pub fn resolve(&self, host: &str) -> (found: Option<&Mapping>)
        ensures
            match found {
                Some(mapping) => resolved(self@, host@) == Some(mapping@),
                None => resolved(self@, host@) is None,
            },
    {
        match self.position(host) {
            Some(i) => Some(&self.mappings[i]),
            None => None,
        }
    }

    /// Adds an entry, in place of the first entry for the same host if there
    /// is one.
    pub fn add_mapping(&mut self, mapping: Mapping)
        ensures
            final(self)@ == with_mapping(old(self)@, mapping@),
    {
        if let Some(i) = self.position(mapping.host.as_str()) {
            self.mappings.remove(i);
        }
        self.mappings.push(mapping);
    }

    /// Takes out the first entry for `host` and returns it; `None`, and the
    /// table as it was, if no entry names the host.
    pub fn remove_mapping(&mut self, host: &str) -> (removed: Option<Mapping>)
        ensures
            final(self)@ == without_host(old(self)@, host@),
            match removed {
                Some(mapping) => resolved(old(self)@, host@) == Some(mapping@),
                None => resolved(old(self)@, host@) is None,
            },
    {
        match self.position(host) {
            Some(i) => Some(self.mappings.remove(i)),
            None => None,
        }
    }
}

} // verus!
