//! The authority of a `CONNECT` request: `host:port`.

use vstd::prelude::*;

verus! {

/// An ASCII decimal digit.
pub open spec fn is_digit(c: char) -> bool {
    '0' <= c <= '9'
}

/// Whether `authority` is a host, the colon at `colon`, and a port: the host
/// is not empty, and the port is one or more decimal digits.
pub open spec fn splits_at(authority: Seq<char>, colon: int) -> bool {
    &&& 0 < colon < authority.len() - 1
    &&& authority[colon] == ':'
    &&& forall|j: int| colon < j < authority.len() ==> is_digit(#[trigger] authority[j])
}

/// Whether `authority` has the form `host:port`.
///
/// The host may hold colons of its own, as an IPv6 literal does: the port
/// starts after the last one.
pub open spec fn is_host_port(authority: Seq<char>) -> bool {
    exists|colon: int| splits_at(authority, colon)
}

/// A host that is not empty, a colon and a port of one or more decimal
/// digits make an authority of the form `host:port`.
pub proof fn lemma_host_and_port(host: Seq<char>, port: Seq<char>)
    requires
        host.len() > 0,
        port.len() > 0,
        forall|j: int| 0 <= j < port.len() ==> is_digit(port[j]),
    ensures
        is_host_port(host + seq![':'] + port),
{
    assert(splits_at(host + seq![':'] + port, host.len() as int));
}

/// An authority without a colon has no port.
pub proof fn lemma_missing_port(authority: Seq<char>)
    requires
        forall|j: int| 0 <= j < authority.len() ==> authority[j] != ':',
    ensures
        !is_host_port(authority),
{
}

/// An authority that ends with a colon has an empty port.
pub proof fn lemma_empty_port(authority: Seq<char>)
    requires
        authority.len() > 0,
        authority.last() == ':',
    ensures
        !is_host_port(authority),
{
}

/// An authority with a character after its last colon that is no decimal
/// digit has no numeric port.
pub proof fn lemma_non_numeric_port(authority: Seq<char>, bad: int)
    requires
        0 <= bad < authority.len(),
        !is_digit(authority[bad]),
        forall|j: int| bad <= j < authority.len() ==> authority[j] != ':',
    ensures
        !is_host_port(authority),
{
}

/// An authority with no colon after its first character has no host before
/// a port.
pub proof fn lemma_missing_host(authority: Seq<char>)
    requires
        forall|j: int| 0 < j < authority.len() ==> authority[j] != ':',
    ensures
        !is_host_port(authority),
{
}

fn is_decimal_digit(c: char) -> (digit: bool)
    ensures
        digit == is_digit(c),
{
    '0' <= c && c <= '9'
}

/// Decides [`is_host_port`].
pub fn is_socket_address(authority: &str) -> (valid: bool)
    ensures
        valid == is_host_port(authority@),
{
    let len: usize = authority.unicode_len();
    let mut port_start: usize = len;
    while port_start > 0 && is_decimal_digit(authority.get_char(port_start - 1))
        invariant
            port_start <= len,
            len == authority@.len(),
            forall|j: int| port_start <= j < len ==> is_digit(#[trigger] authority@[j]),
        decreases port_start,
    {
        port_start -= 1;
    }
    if port_start == len || port_start < 2 {
        return false;
    }
    let valid: bool = authority.get_char(port_start - 1) == ':';
    proof {
        if valid {
            assert(splits_at(authority@, port_start - 1));
        }
    }
    valid
}

} // verus!
