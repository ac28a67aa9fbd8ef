//! Addresses that a QUIC endpoint dials and binds.

use vstd::prelude::*;

verus! {

/// An IP address and a port.
#[derive(Clone, Copy, Debug, PartialEq, Eq, Structural)]
pub enum DialAddress {
    V4 { ipv4: u32, port: u16 },
    V6 { ipv6: u128, port: u16, flow_info: u32, scope_id: u32 },
}

/// Those addresses of a list that are of one family, in their order.
pub open spec fn of_family(addresses: Seq<DialAddress>, v4: bool) -> Seq<DialAddress>
    decreases addresses.len(),
{
    if addresses.len() == 0 {
        Seq::empty()
    } else if (addresses.last() is V4) == v4 {
        of_family(addresses.drop_last(), v4).push(addresses.last())
    } else {
        of_family(addresses.drop_last(), v4)
    }
}

/// The addresses to dial, one after the other: those of IPv4 first, each family in the order in
/// which it was resolved.
pub fn ordered_dial_candidates(resolved: &Vec<DialAddress>) -> (candidates: Vec<DialAddress>)
    ensures
        candidates@ == of_family(resolved@, true) + of_family(resolved@, false),
        candidates@.len() == resolved@.len(),
        candidates@.to_multiset() == resolved@.to_multiset(),
{
    let mut ipv4: Vec<DialAddress> = Vec::new();
    let mut ipv6: Vec<DialAddress> = Vec::new();
    let mut at: usize = 0;
    assert(resolved@.take(0) =~= Seq::<DialAddress>::empty());
    while at < resolved.len()
        invariant
            at <= resolved@.len(),
            ipv4@ == of_family(resolved@.take(at as int), true),
            ipv6@ == of_family(resolved@.take(at as int), false),
        decreases resolved@.len() - at,
    {
        let ghost longer = resolved@.take(at + 1);
        assert(longer.drop_last() =~= resolved@.take(at as int));
        assert(longer.last() == resolved@[at as int]);
        let address: DialAddress = resolved[at];
        match address {
            DialAddress::V4 { .. } => ipv4.push(address),
            DialAddress::V6 { .. } => ipv6.push(address),
        }
        at = at + 1;
    }
    assert(resolved@.take(at as int) =~= resolved@);
    proof {
        lemma_families_cover(resolved@);
    }
    ipv4.append(&mut ipv6);
    ipv4
}

proof fn lemma_families_cover(addresses: Seq<DialAddress>)
    ensures
        (of_family(addresses, true) + of_family(addresses, false)).to_multiset()
            == addresses.to_multiset(),
        of_family(addresses, true).len() + of_family(addresses, false).len() == addresses.len(),
    decreases addresses.len(),
{
    broadcast use vstd::seq_lib::group_to_multiset_ensures;

    let v4 = of_family(addresses, true);
    let v6 = of_family(addresses, false);
    if addresses.len() == 0 {
        assert(v4 + v6 =~= addresses);
    } else {
        let rest = addresses.drop_last();
        let last = addresses.last();
        lemma_families_cover(rest);
        let rest_v4 = of_family(rest, true);
        let rest_v6 = of_family(rest, false);
        vstd::seq_lib::lemma_multiset_commutative(rest_v4, rest_v6);
        vstd::seq_lib::lemma_multiset_commutative(v4, v6);
        assert(addresses =~= rest.push(last));
    }
}

/// Whether every address of one family comes before every address of the other.
pub open spec fn v4_before_v6(addresses: Seq<DialAddress>) -> bool {
    forall|i: int, j: int|
        #![trigger addresses[i], addresses[j]]
        0 <= i < j < addresses.len() && addresses[j] is V4 ==> addresses[i] is V4
}

/// Dial candidates never try IPv6 before IPv4.
pub proof fn dial_candidates_prefer_v4(resolved: Seq<DialAddress>)
    ensures
        v4_before_v6(of_family(resolved, true) + of_family(resolved, false)),
{
    lemma_family_members(resolved, true);
    lemma_family_members(resolved, false);
}

proof fn lemma_family_members(addresses: Seq<DialAddress>, v4: bool)
    ensures
        forall|i: int|
            0 <= i < of_family(addresses, v4).len() ==> (#[trigger] of_family(addresses, v4)[i]
                is V4) == v4,
    decreases addresses.len(),
{
    if addresses.len() > 0 {
        lemma_family_members(addresses.drop_last(), v4);
    }
}

/// The unspecified local address, on any free port, of the same family as `remote`.
pub fn quic_client_bind_addr(remote: DialAddress) -> (local: DialAddress)
    ensures
        local == match remote {
            DialAddress::V4 { .. } => DialAddress::V4 { ipv4: 0, port: 0 },
            DialAddress::V6 { .. } => DialAddress::V6 {
                ipv6: 0,
                port: 0,
                flow_info: 0,
                scope_id: 0,
            },
        },
{
    match remote {
        DialAddress::V4 { .. } => DialAddress::V4 { ipv4: 0, port: 0 },
        DialAddress::V6 { .. } => DialAddress::V6 { ipv6: 0, port: 0, flow_info: 0, scope_id: 0 },
    }
}

} // verus!
