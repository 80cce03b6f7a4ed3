//! Netmasks of IPv4 ranges, for the DHCP agent's configuration.

use vstd::prelude::*;

use crate::models::IPRange;
use crate::text::decimal;

verus! {

/// `s` is an IPv4 address in dotted-decimal notation: four octets in
/// decimal without leading zeros, separated by dots.
pub open spec fn is_dotted_quad(s: Seq<char>) -> bool {
    exists|addr: u32| dotted_quad(addr) == s
}

/// The netmask of an IPv4 network with the given prefix length: the
/// `prefix` most significant bits set and the others clear.
pub open spec fn prefix_mask(prefix: u8) -> u32 {
    if prefix == 0 {
        0
    } else {
        0xffff_ffffu32 << ((32 - prefix) as u32)
    }
}

/// An IPv4 address (a big-endian `u32`) in dotted-decimal notation.
pub open spec fn dotted_quad(addr: u32) -> Seq<char> {
    decimal((addr >> 24u32) as nat) + seq!['.'] + decimal(((addr >> 16u32) & 0xffu32) as nat)
        + seq!['.'] + decimal(((addr >> 8u32) & 0xffu32) as nat) + seq!['.'] + decimal(
        (addr & 0xffu32) as nat,
    )
}

/// Parses an IPv4 address with `core::net::Ipv4Addr`'s `FromStr`, which
/// its documentation describes as dotted-decimal notation: four octets in
/// decimal, divided by dots, with octal-looking leading zeros and hexadecimal
/// rejected. So it accepts exactly the strings `dotted_quad(addr)`, and then
/// gives `addr` back.
#[verifier::external_body]
fn parse_ipv4(s: &str) -> (r: Option<u32>)
    ensures
        r matches Some(addr) ==> dotted_quad(addr) == s@,
        r is None ==> !is_dotted_quad(s@),
{
    match s.parse::<core::net::Ipv4Addr>() {
        Ok(addr) => Some(u32::from(addr)),
        Err(_) => None,
    }
}

/// `ipnetwork::Ipv4Network::new(addr, prefix)` followed by `mask()`: `new`
/// fails exactly when `prefix` exceeds 32, and `mask` sets the `prefix` most
/// significant bits (zero for a zero prefix), as the crate's source shows.
#[verifier::external_body]
fn ipv4_network_mask(addr: u32, prefix: u8) -> (r: Option<u32>)
    ensures
        r == (if prefix <= 32 {
            Some(prefix_mask(prefix))
        } else {
            None::<u32>
        }),
{
    match ipnetwork::Ipv4Network::new(core::net::Ipv4Addr::from(addr), prefix) {
        Ok(network) => Some(u32::from(network.mask())),
        Err(_) => None,
    }
}

/// `core::net::Ipv4Addr`'s `to_string`: the four octets in decimal, most
/// significant first, separated by dots.
#[verifier::external_body]
fn ipv4_to_string(addr: u32) -> (r: String)
    ensures
        r@ == dotted_quad(addr),
{
    core::net::Ipv4Addr::from(addr).to_string()
}

/// The netmask of a network with prefix length `cidr`, in dotted-decimal notation.
pub fn prefix_netmask(network: u32, cidr: i32) -> (r: String)
    requires
        0 <= cidr <= 32,
    ensures
        r@ == dotted_quad(prefix_mask(cidr as u8)),
        is_netmask_text(r@, cidr as int),
{
    proof {
        lemma_netmask_for(true, cidr as int);
    }
    let prefix = cidr as u8;
    let mask = ipv4_network_mask(network, prefix).unwrap();
    ipv4_to_string(mask)
}

/// The netmask for a network address that is (`valid`) or is not an IPv4
/// address: `None` where it is not or `cidr` is no IPv4 prefix length.
pub open spec fn spec_netmask_for(valid: bool, cidr: int) -> Option<Seq<char>> {
    if valid && 0 <= cidr <= 32 {
        Some(dotted_quad(prefix_mask(cidr as u8)))
    } else {
        None
    }
}

/// `mask` has exactly its `prefix` most significant bits set.
pub open spec fn has_prefix_bits(mask: u32, prefix: int) -> bool {
    forall|i: u32| i < 32 ==> (((#[trigger] (mask >> i)) & 1u32 == 1u32) <==> i >= 32 - prefix)
}

/// `m` is the dotted-decimal text of the netmask of prefix length `prefix`.
pub open spec fn is_netmask_text(m: Seq<char>, prefix: int) -> bool {
    exists|mask: u32| #[trigger] dotted_quad(mask) == m && has_prefix_bits(mask, prefix)
}

/// The netmask for a parsed network address and a prefix length.
pub fn netmask_for(parsed: Option<u32>, cidr: i32) -> (r: Option<String>)
    ensures
        r matches Some(m) ==> spec_netmask_for(parsed is Some, cidr as int) == Some(m@),
        r is None ==> spec_netmask_for(parsed is Some, cidr as int) is None,
        r is Some <==> (parsed is Some && 0 <= cidr <= 32),
        r matches Some(m) ==> is_netmask_text(m@, cidr as int),
{
    proof {
        lemma_netmask_for(parsed is Some, cidr as int);
    }
    match parsed {
        Some(network) => if 0 <= cidr && cidr <= 32 {
            Some(prefix_netmask(network, cidr))
        } else {
            None
        },
        None => None,
    }
}

/// The netmask of an IP range: `None` where its network address is no IPv4
/// address or its prefix length is outside `0..=32`.
pub fn range_netmask(range: &IPRange) -> (r: Option<String>)
    ensures
        r matches Some(m) ==> spec_netmask_for(is_dotted_quad(range.networkid@), range.cidr as int)
            == Some(m@),
        r is None ==> spec_netmask_for(is_dotted_quad(range.networkid@), range.cidr as int) is None,
        r is Some <==> (is_dotted_quad(range.networkid@) && 0 <= range.cidr <= 32),
        r matches Some(m) ==> is_netmask_text(m@, range.cidr as int),
{
    proof {
        lemma_netmask_for(is_dotted_quad(range.networkid@), range.cidr as int);
    }
    let parsed = parse_ipv4(range.networkid.as_str());
    netmask_for(parsed, range.cidr)
}

/// A network address that is an IPv4 address, with a prefix length in
/// `0..=32`, always has a netmask; the netmask exists for no other input;
/// and it is the text of the mask whose `cidr` most significant bits are set
/// (so it depends on the prefix length itself, not on any rounding of it).
pub proof fn lemma_netmask_for(valid: bool, cidr: int)
    ensures
        spec_netmask_for(valid, cidr) is Some <==> (valid && 0 <= cidr <= 32),
        spec_netmask_for(valid, cidr) matches Some(m) ==> is_netmask_text(m, cidr),
{
    if valid && 0 <= cidr <= 32 {
        let mask = prefix_mask(cidr as u8);
        assert forall|i: u32| i < 32 implies (((#[trigger] (mask >> i)) & 1u32 == 1u32) <==> i
            >= 32 - cidr) by {
            lemma_prefix_mask_bits(cidr as u8, i);
        }
        assert(has_prefix_bits(mask, cidr));
        assert(dotted_quad(mask) == spec_netmask_for(valid, cidr)->0);
    }
}

/// The netmask of prefix length `prefix` has its `prefix` most significant
/// bits set and all others clear.
pub proof fn lemma_prefix_mask_bits(prefix: u8, i: u32)
    requires
        prefix <= 32,
        i < 32,
    ensures
        ((prefix_mask(prefix) >> i) & 1u32 == 1u32) <==> (i >= 32 - prefix),
{
    if prefix == 0 {
        assert((0u32 >> i) & 1u32 == 0u32) by (bit_vector);
    } else {
        let s: u32 = (32 - prefix) as u32;
        assert(s < 32 && i < 32 ==> (((0xffff_ffffu32 << s) >> i) & 1u32 == 1u32 <==> i >= s))
            by (bit_vector);
    }
}

} // verus!
