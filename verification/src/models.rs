//! The records that the service stores and exchanges.

use vstd::prelude::*;

verus! {

/// The kind of a DNS resource record.
#[derive(PartialEq, Eq, Structural, Clone, Copy, Debug)]
pub enum DNSRecordType {
    A,
    AAAA,
    NS,
    MX,
    CNAME,
    SOA,
    SRV,
    PTR,
    TXT,
}

impl DNSRecordType {
    /// The textual name of the record type, as it appears in a zone file.
    pub open spec fn name(self) -> Seq<char> {
        match self {
            DNSRecordType::A => seq!['A'],
            DNSRecordType::AAAA => seq!['A', 'A', 'A', 'A'],
            DNSRecordType::NS => seq!['N', 'S'],
            DNSRecordType::MX => seq!['M', 'X'],
            DNSRecordType::CNAME => seq!['C', 'N', 'A', 'M', 'E'],
            DNSRecordType::SOA => seq!['S', 'O', 'A'],
            DNSRecordType::SRV => seq!['S', 'R', 'V'],
            DNSRecordType::PTR => seq!['P', 'T', 'R'],
            DNSRecordType::TXT => seq!['T', 'X', 'T'],
        }
    }

    /// The name of the record type as a string slice.
    pub fn as_str(&self) -> (r: &'static str)
        ensures
            r@ == self.name(),
    {
        match self {
            DNSRecordType::A => {
                let s = "A";
                proof { reveal_strlit("A"); }
                s
            },
            DNSRecordType::AAAA => {
                let s = "AAAA";
                proof { reveal_strlit("AAAA"); }
                s
            },
            DNSRecordType::NS => {
                let s = "NS";
                proof { reveal_strlit("NS"); }
                s
            },
            DNSRecordType::MX => {
                let s = "MX";
                proof { reveal_strlit("MX"); }
                s
            },
            DNSRecordType::CNAME => {
                let s = "CNAME";
                proof { reveal_strlit("CNAME"); }
                s
            },
            DNSRecordType::SOA => {
                let s = "SOA";
                proof { reveal_strlit("SOA"); }
                s
            },
            DNSRecordType::SRV => {
                let s = "SRV";
                proof { reveal_strlit("SRV"); }
                s
            },
            DNSRecordType::PTR => {
                let s = "PTR";
                proof { reveal_strlit("PTR"); }
                s
            },
            DNSRecordType::TXT => {
                let s = "TXT";
                proof { reveal_strlit("TXT"); }
                s
            },
        }
    }

    /// The name of the record type as an owned string.
    pub fn to_string(&self) -> (r: String)
        ensures
            r@ == self.name(),
    {
        String::from_str(self.as_str())
    }

    /// The number of bytes in the name of the record type.
    pub fn len(&self) -> (r: usize)
        ensures
            r == self.name().len(),
            r == vstd::utf8::encode_utf8(self.name()).len(),
    {
        let s = self.as_str();
        proof {
            vstd::utf8::is_ascii_chars_encode_utf8(self.name());
        }
        s.len()
    }
}

/// Every record type has a name of one to five ASCII characters, and no two
/// record types share a name.
pub proof fn lemma_record_type_names(a: DNSRecordType, b: DNSRecordType)
    ensures
        1 <= a.name().len() <= 5,
        vstd::utf8::is_ascii_chars(a.name()),
        a.name() == b.name() ==> a == b,
{
    if a.name() == b.name() && a != b {
        assert(a.name().len() == b.name().len());
        assert(a.name()[0] == b.name()[0]);
        if a.name().len() == 3 {
            assert(a.name()[1] == b.name()[1]);
        }
    }
}

/// An API key: its name and the hash of its secret.
#[derive(Debug, PartialEq)]
pub struct APIKey {
    pub id: i32,
    pub name: String,
    pub keyhash: String,
}

/// A permission granted to an API key.
#[derive(Debug, PartialEq)]
pub struct KeyPermissions {
    pub id: i32,
    pub keyid: i32,
    pub permission: String,
}

/// A log entry; `timestamp` is in seconds since the Unix epoch (UTC).
#[derive(Debug, PartialEq)]
pub struct Logs {
    pub id: i32,
    pub timestamp: i64,
    pub message: String,
}

/// A VLAN, served by the DHCP server with id `serverid`.
#[derive(Debug, PartialEq)]
pub struct Vlan {
    pub id: i32,
    pub name: String,
    pub serverid: i32,
}

/// A registered device and its owner.
#[derive(Debug, PartialEq)]
pub struct Device {
    pub id: i32,
    pub name: String,
    pub owner: String,
    pub comments: String,
}

/// A network interface of a device, identified by its MAC address.
#[derive(Debug, PartialEq)]
pub struct Interface {
    pub id: i32,
    pub macaddr: String,
    pub deviceid: i32,
    pub name: String,
    pub comments: String,
}

/// Whether an address is assigned statically or by DHCP.
#[derive(PartialEq, Eq, Structural, Clone, Copy, Debug)]
pub enum IPType {
    Static,
    Dynamic,
}

/// An address of an interface inside an IP range.
#[derive(Debug, PartialEq)]
pub struct Address {
    pub id: i32,
    pub interfaceid: i32,
    pub iprangeid: i32,
    pub iptype: IPType,
}

/// The fixed IP of a static address.
#[derive(Debug, PartialEq)]
pub struct StaticAddress {
    pub addressid: i32,
    pub ipaddr: String,
}

/// The IP version of a range.
#[derive(PartialEq, Eq, Structural, Clone, Copy, Debug)]
pub enum IPVersion {
    V4,
    V6,
}

/// An IP range (a subnet) with its DHCP and DNS defaults.
#[derive(Debug, PartialEq)]
pub struct IPRange {
    pub id: i32,
    pub name: String,
    pub ipversion: IPVersion,
    pub networkid: String,
    pub cidr: i32,
    pub description: String,
    pub vlan: i32,
    pub gateway: String,
    pub default_dns: String,
    pub dns_domain: String,
    pub default_lease_time: i32,
    pub max_lease_time: i32,
    pub min_lease_time: i32,
}

/// A DNS/DHCP server agent; `lastcheckin` is in seconds since the Unix epoch (UTC).
#[derive(Debug, PartialEq)]
pub struct Server {
    pub id: i32,
    pub name: String,
    pub tokenhash: Option<String>,
    pub lastcheckin: Option<i64>,
    pub dnsupdate: bool,
    pub dhcpupdate: bool,
}

/// A dynamic DNS link between an IP range and a DNS zone.
#[derive(Debug, PartialEq)]
pub struct DDNS {
    pub iprangeid: i32,
    pub zoneid: i32,
}

/// A DNS zone and its SOA parameters.
#[derive(Debug, PartialEq)]
pub struct DNSZone {
    pub id: i32,
    pub zonename: String,
    pub serverid: i32,
    pub dnsroot: String,
    pub refresh: i32,
    pub retry: i32,
    pub expire: i32,
    pub nxdomain: i32,
    pub contact: String,
    pub server: String,
}

/// A DNS resource record of a zone.
#[derive(Debug, PartialEq)]
pub struct DNSRecord {
    pub id: i32,
    pub zoneid: i32,
    pub key: String,
    pub ttl: i32,
    pub value: String,
    pub recordtype: DNSRecordType,
}

/// The preference of an MX record (`id` is that of its DNS record).
#[derive(Debug, PartialEq)]
pub struct MXRecord {
    pub id: i32,
    pub preference: i32,
}

/// The extra fields of an SRV record (`id` is that of its DNS record).
#[derive(Debug, PartialEq)]
pub struct SRVRecord {
    pub id: i32,
    pub preference: i32,
    pub weight: i32,
    pub port: i32,
}

/// A pool of dynamically assigned addresses inside an IP range.
#[derive(Debug, PartialEq)]
pub struct DHCPRange {
    pub id: i32,
    pub iprangeid: i32,
    pub name: String,
    pub dhcpstart: String,
    pub dhcpend: String,
    pub jail: bool,
}

/// A VLAN with the IP ranges it carries.
#[derive(Debug, PartialEq)]
pub struct VLANData {
    pub id: i32,
    pub name: String,
    pub ranges: Option<Vec<IPRange>>,
}

/// An address as the DHCP agent sees it: device, owner and interface MAC.
#[derive(Debug, PartialEq)]
pub struct IPOut {
    pub name: String,
    pub owner: String,
    pub interface: String,
    pub address: Option<Address>,
    pub hash: Option<String>,
    pub static_addr: Option<String>,
}

/// An IP range with its netmask, DHCP pools and addresses, for the DHCP agent.
#[derive(Debug, PartialEq)]
pub struct IPRangeOut {
    pub iprange: IPRange,
    pub netmask: String,
    pub dhcp: Vec<DHCPRange>,
    pub addresses: Vec<IPOut>,
}

/// A VLAN with its ranges, for the DHCP agent.
#[derive(Debug, PartialEq)]
pub struct DHCPOut {
    pub vlan_id: i32,
    pub vlan_name: String,
    pub ranges: Vec<IPRangeOut>,
}

} // verus!
