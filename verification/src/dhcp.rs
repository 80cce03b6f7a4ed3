//! The configuration that the DHCP agent fetches: VLANs, their IP ranges
//! with netmasks, DHCP pools and registered addresses.

use vstd::prelude::*;

use crate::models::{DHCPOut, DHCPRange, IPOut, IPRange, IPRangeOut, VLANData};
use crate::netmask::{is_dotted_quad, is_netmask_text, lemma_netmask_for, range_netmask, spec_netmask_for};

verus! {

/// The DHCP pools and the addresses of one IP range, as fetched.
#[derive(Debug, PartialEq)]
pub struct RangeDetails {
    pub dhcp: Vec<DHCPRange>,
    pub addresses: Vec<IPOut>,
}

impl IPRangeOut {
    /// `self` is `iprange` with its netmask, `dhcp` and `addresses`.
    pub open spec fn describes(self, iprange: IPRange, dhcp: Vec<DHCPRange>, addresses: Vec<IPOut>) -> bool {
        &&& self.iprange == iprange
        &&& spec_netmask_for(is_dotted_quad(iprange.networkid@), iprange.cidr as int) == Some(
            self.netmask@,
        )
        &&& self.dhcp == dhcp
        &&& self.addresses == addresses
    }

    /// An IP range with its netmask, DHCP pools and addresses; `None` where
    /// the range has no IPv4 netmask (see `range_netmask`).
    pub fn new(iprange: IPRange, dhcp: Vec<DHCPRange>, addresses: Vec<IPOut>) -> (r: Option<
        IPRangeOut,
    >)
        ensures
            r is None <==> spec_netmask_for(is_dotted_quad(iprange.networkid@), iprange.cidr as int)
                is None,
            r matches Some(out) ==> out.describes(iprange, dhcp, addresses),
            r is Some <==> (is_dotted_quad(iprange.networkid@) && 0 <= iprange.cidr <= 32),
            r matches Some(out) ==> is_netmask_text(out.netmask@, iprange.cidr as int),
    {
        match range_netmask(&iprange) {
            Some(netmask) => Some(IPRangeOut { iprange, netmask, dhcp, addresses }),
            None => None,
        }
    }
}


/// The range has an IPv4 netmask.
pub open spec fn has_netmask(range: IPRange) -> bool {
    spec_netmask_for(is_dotted_quad(range.networkid@), range.cidr as int) is Some
}

/// A range has a netmask exactly when its network address is an IPv4
/// address and its prefix length lies in `0..=32`; every prefix length in
/// that interval is accepted, and the netmask sets exactly its `cidr` most
/// significant bits.
pub proof fn lemma_range_netmask(range: IPRange)
    ensures
        has_netmask(range) <==> (is_dotted_quad(range.networkid@) && 0 <= range.cidr <= 32),
        spec_netmask_for(is_dotted_quad(range.networkid@), range.cidr as int) matches Some(m)
            ==> is_netmask_text(m, range.cidr as int),
{
    lemma_netmask_for(is_dotted_quad(range.networkid@), range.cidr as int);
}

/// A VLAN whose ranges all have IPv4 network addresses and prefix lengths
/// in `0..=32` gets a configuration, and each range in it carries the
/// netmask of its own prefix length.
pub proof fn lemma_build_succeeds(out: Option<DHCPOut>, vlan: VLANData, details: Seq<RangeDetails>)
    requires
        vlan.ranges is Some,
        out is None <==> exists|i: int|
            0 <= i < vlan.ranges->0@.len() && !has_netmask(#[trigger] vlan.ranges->0@[i]),
        out matches Some(o) ==> o.describes(vlan, details),
    ensures
        (forall|i: int|
            0 <= i < vlan.ranges->0@.len() ==> is_dotted_quad(
                (#[trigger] vlan.ranges->0@[i]).networkid@,
            ) && 0 <= vlan.ranges->0@[i].cidr <= 32) ==> out is Some,
        out matches Some(o) ==> forall|i: int|
            0 <= i < o.ranges@.len() ==> is_netmask_text(
                (#[trigger] o.ranges@[i]).netmask@,
                vlan.ranges->0@[i].cidr as int,
            ),
{
    assert forall|i: int| 0 <= i < vlan.ranges->0@.len() implies (has_netmask(
        #[trigger] vlan.ranges->0@[i],
    ) <==> (is_dotted_quad(vlan.ranges->0@[i].networkid@) && 0 <= vlan.ranges->0@[i].cidr
        <= 32)) by {
        lemma_range_netmask(vlan.ranges->0@[i]);
    }
    if let Some(o) = out {
        assert forall|i: int| 0 <= i < o.ranges@.len() implies is_netmask_text(
            (#[trigger] o.ranges@[i]).netmask@,
            vlan.ranges->0@[i].cidr as int,
        ) by {
            lemma_range_netmask(vlan.ranges->0@[i]);
            assert(o.ranges@[i].describes(vlan.ranges->0@[i], details[i].dhcp, details[i].addresses));
        }
    }
}

impl DHCPOut {
    /// `self` is the configuration of `vlan`: its id and name, and each of
    /// its ranges, in order, with the matching details.
    pub open spec fn describes(self, vlan: VLANData, details: Seq<RangeDetails>) -> bool {
        &&& vlan.ranges is Some
        &&& self.vlan_id == vlan.id
        &&& self.vlan_name == vlan.name
        &&& self.ranges@.len() == vlan.ranges->0@.len()
        &&& forall|i: int|
            0 <= i < self.ranges@.len() ==> (#[trigger] self.ranges@[i]).describes(
                vlan.ranges->0@[i],
                details[i].dhcp,
                details[i].addresses,
            )
    }

    /// The configuration of a VLAN from its ranges and the details fetched
    /// for each of them (`details[i]` belongs to range `i`). `None` where a
    /// range has no IPv4 netmask.
    pub fn build(vlan: VLANData, details: Vec<RangeDetails>) -> (r: Option<DHCPOut>)
        requires
            vlan.ranges is Some,
            details@.len() == vlan.ranges->0@.len(),
        ensures
            r is None <==> exists|i: int|
                0 <= i < vlan.ranges->0@.len() && !has_netmask(#[trigger] vlan.ranges->0@[i]),
            r matches Some(out) ==> out.describes(vlan, details@),
            (forall|i: int|
                0 <= i < vlan.ranges->0@.len() ==> is_dotted_quad(
                    (#[trigger] vlan.ranges->0@[i]).networkid@,
                ) && 0 <= vlan.ranges->0@[i].cidr <= 32) ==> r is Some,
    {
        let ghost old_vlan = vlan;
        let ghost old_details = details@;
        let VLANData { id, name, ranges } = vlan;
        let ranges = ranges.unwrap();
        let mut details = details;
        let mut out: Vec<IPRangeOut> = Vec::new();
        for range in it: ranges.into_iter()
            invariant
                old_vlan == vlan,
                it.seq() == old_vlan.ranges->0@,
                old_details.len() == it.seq().len(),
                details@ == old_details.skip(it.index() as int),
                out@.len() == it.index(),
                forall|j: int| 0 <= j < it.index() ==> has_netmask(#[trigger] it.seq()[j]),
                forall|j: int|
                    0 <= j < it.index() ==> (#[trigger] out@[j]).describes(
                        it.seq()[j],
                        old_details[j].dhcp,
                        old_details[j].addresses,
                    ),
        {
            let ghost i = it.index();
            assert(details@.len() > 0);
            let RangeDetails { dhcp, addresses } = details.remove(0);
            assert(details@ =~= old_details.skip(i + 1));
            match IPRangeOut::new(range, dhcp, addresses) {
                Some(range_out) => out.push(range_out),
                None => {
                    assert(!has_netmask(vlan.ranges->0@[i as int]));
                    return None;
                },
            }
        }
        Some(DHCPOut { vlan_id: id, vlan_name: name, ranges: out })
    }
}

} // verus!
