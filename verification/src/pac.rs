//! The proxy auto-configuration script: a piece of JavaScript that tells a
//! browser to send the routed hosts through this proxy and everything else
//! directly.

use crate::json::{json_array_text, to_json_array};
use crate::provider::{Mapping, MappingView};
use crate::text::strip_suffix;
use vstd::prelude::*;

verus! {

/// The script up to the list of hosts.
pub const PAC_HEAD: &'static str = "\nfunction FindProxyForURL (url, host) { \nlet list = ";

/// The script after the list of hosts.
pub const PAC_TAIL: &'static str =
    ";\nfor (let i = 0; i < list.length; i++) { \n    if (host == list[i]) { \n        return 'PROXY localhost:7040';\n    }\n}                  \nreturn 'DIRECT';\n}";

/// The URL under which a routed host appears in the script: a host on port
/// 443 is an `https` origin, one on port 80 an `http` origin, and the port
/// is dropped from both; any other host is taken as an `https` origin as it
/// stands.
pub open spec fn normalized_host(host: Seq<char>) -> Seq<char> {
    if ":443"@.is_suffix_of(host) {
        "https://"@ + host.take(host.len() - ":443"@.len())
    } else if ":80"@.is_suffix_of(host) {
        "http://"@ + host.take(host.len() - ":80"@.len())
    } else {
        "https://"@ + host
    }
}

/// The URLs of all routed hosts, in table order.
pub open spec fn normalized_hosts(table: Seq<MappingView>) -> Seq<Seq<char>> {
    Seq::new(table.len(), |i: int| normalized_host(table[i].host))
}

/// The script around a given list literal.
pub open spec fn pac_text(list: Seq<char>) -> Seq<char> {
    PAC_HEAD@ + list + PAC_TAIL@
}

/// The whole script for a routing table: the URLs of its hosts, written as a
/// JSON array, inside the fixed text.
pub open spec fn pac_script(table: Seq<MappingView>) -> Seq<char> {
    pac_text(json_array_text(normalized_hosts(table)))
}

/// The script depends on the hosts of the table and on their order, and on
/// nothing else: two tables that name the same hosts in the same order have
/// the same script.
pub proof fn lemma_script_depends_on_hosts(left: Seq<MappingView>, right: Seq<MappingView>)
    requires
        left.len() == right.len(),
        forall|i: int| 0 <= i < left.len() ==> left[i].host == right[i].host,
    ensures
        pac_script(left) == pac_script(right),
{
    assert(normalized_hosts(left) =~= normalized_hosts(right));
}

/// Every script is the same fixed text around its list of hosts.
pub proof fn lemma_script_frame(table: Seq<MappingView>)
    ensures
        PAC_HEAD@.is_prefix_of(pac_script(table)),
        PAC_TAIL@.is_suffix_of(pac_script(table)),
{
}

/// Computes [`normalized_host`].
pub fn normalize_host(host: &str) -> (url: String)
    ensures
        url@ == normalized_host(host@),
{
    match strip_suffix(host, ":443") {
        Some(name) => String::from_str("https://").concat(name),
        None => match strip_suffix(host, ":80") {
            Some(name) => String::from_str("http://").concat(name),
            None => String::from_str("https://").concat(host),
        },
    }
}

/// Computes [`normalized_hosts`].
pub fn normalize_hosts(mappings: &Vec<Mapping>) -> (urls: Vec<String>)
    ensures
        urls.deep_view() == normalized_hosts(mappings.deep_view()),
{
    let mut urls: Vec<String> = Vec::new();
    let mut i: usize = 0;
    while i < mappings.len()
        invariant
            i <= mappings.len(),
            urls.len() == i,
            forall|j: int| 0 <= j < i ==> urls[j]@ == normalized_host(#[trigger] mappings[j].host@),
        decreases mappings.len() - i,
    {
        urls.push(normalize_host(mappings[i].host.as_str()));
        i += 1;
    }
    urls
}

/// Puts a list literal into the script.
pub fn render_pac(list: &str) -> (script: String)
    ensures
        script@ == pac_text(list@),
{
    let mut script: String = String::from_str(PAC_HEAD);
    script.append(list);
    script.append(PAC_TAIL);
    script
}

/// Generates the script for a routing table.
///
/// The list in the script is the JSON text of the table's hosts, each as
/// [`normalized_host`] gives it, taken in table order.
pub fn create_pac_file(mappings: &Vec<Mapping>) -> (script: String)
    ensures
        script@ == pac_script(mappings.deep_view()),
{
    let urls: Vec<String> = normalize_hosts(mappings);
    match to_json_array(&urls) {
        Ok(list) => render_pac(list.as_str()),
        Err(_) => unreached(),
    }
}

} // verus!
