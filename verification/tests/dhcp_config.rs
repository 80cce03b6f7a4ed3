use yards::dhcp::RangeDetails;
use yards::models::{
    Address, DHCPOut, DHCPRange, IPOut, IPRange, IPRangeOut, IPType, IPVersion, VLANData,
};
use yards::netmask::{netmask_for, prefix_netmask, range_netmask};

fn range(id: i32, networkid: &str, cidr: i32) -> IPRange {
    IPRange {
        id,
        name: format!("range{}", id),
        ipversion: IPVersion::V4,
        networkid: networkid.to_string(),
        cidr,
        description: String::new(),
        vlan: 10,
        gateway: "10.0.0.1".to_string(),
        default_dns: "10.0.0.2".to_string(),
        dns_domain: "example.com".to_string(),
        default_lease_time: 600,
        max_lease_time: 7200,
        min_lease_time: 60,
    }
}

fn pool(id: i32, iprangeid: i32) -> DHCPRange {
    DHCPRange {
        id,
        iprangeid,
        name: "pool".to_string(),
        dhcpstart: "10.0.0.100".to_string(),
        dhcpend: "10.0.0.200".to_string(),
        jail: false,
    }
}

fn host(name: &str) -> IPOut {
    IPOut {
        name: name.to_string(),
        owner: "alice".to_string(),
        interface: "00:11:22:33:44:55".to_string(),
        address: Some(Address { id: 1, interfaceid: 2, iprangeid: 3, iptype: IPType::Dynamic }),
        hash: None,
        static_addr: None,
    }
}

#[test]
fn netmask_values() {
    assert_eq!(prefix_netmask(0x0a000000, 24), "255.255.255.0");
    assert_eq!(prefix_netmask(0x0a000000, 20), "255.255.240.0");
    assert_eq!(prefix_netmask(0, 0), "0.0.0.0");
    assert_eq!(prefix_netmask(0, 1), "128.0.0.0");
    assert_eq!(prefix_netmask(0, 32), "255.255.255.255");
    assert_eq!(prefix_netmask(0, 9), "255.128.0.0");
}

#[test]
fn netmask_for_rejects() {
    assert_eq!(netmask_for(Some(1), 16), Some("255.255.0.0".to_string()));
    assert_eq!(netmask_for(Some(1), 33), None);
    assert_eq!(netmask_for(Some(1), -1), None);
    assert_eq!(netmask_for(Some(1), 256), None);
    assert_eq!(netmask_for(None, 24), None);
}

#[test]
fn range_netmask_parses_network() {
    assert_eq!(range_netmask(&range(1, "192.168.1.0", 24)), Some("255.255.255.0".to_string()));
    assert_eq!(range_netmask(&range(1, "10.0.0.0", 8)), Some("255.0.0.0".to_string()));
    assert_eq!(range_netmask(&range(1, "not an address", 24)), None);
    assert_eq!(range_netmask(&range(1, "10.0.0.0/24", 24)), None);
    assert_eq!(range_netmask(&range(1, "2001:db8::", 64)), None);
    assert_eq!(range_netmask(&range(1, "10.0.0.0", 40)), None);
    assert_eq!(range_netmask(&range(1, "010.0.0.0", 24)), None);
    assert_eq!(range_netmask(&range(1, "10.0.0.256", 24)), None);
    assert_eq!(range_netmask(&range(1, "10.0.0", 24)), None);
    assert_eq!(range_netmask(&range(1, "255.255.255.255", 0)), Some("0.0.0.0".to_string()));
}

#[test]
fn range_out_keeps_details() {
    let out = IPRangeOut::new(range(3, "10.1.0.0", 16), vec![pool(1, 3)], vec![host("laptop")]).unwrap();
    assert_eq!(out.netmask, "255.255.0.0");
    assert_eq!(out.iprange.id, 3);
    assert_eq!(out.dhcp, vec![pool(1, 3)]);
    assert_eq!(out.addresses, vec![host("laptop")]);
    assert!(IPRangeOut::new(range(3, "10.1.0.0", -3), vec![], vec![]).is_none());
}

#[test]
fn dhcp_out_for_vlan() {
    let vlan = VLANData {
        id: 10,
        name: "users".to_string(),
        ranges: Some(vec![range(1, "10.0.0.0", 24), range(2, "10.0.1.0", 25)]),
    };
    let details = vec![
        RangeDetails { dhcp: vec![pool(1, 1)], addresses: vec![host("a")] },
        RangeDetails { dhcp: vec![], addresses: vec![host("b"), host("c")] },
    ];
    let out: DHCPOut = DHCPOut::build(vlan, details).unwrap();
    assert_eq!(out.vlan_id, 10);
    assert_eq!(out.vlan_name, "users");
    assert_eq!(out.ranges.len(), 2);
    assert_eq!(out.ranges[0].netmask, "255.255.255.0");
    assert_eq!(out.ranges[1].netmask, "255.255.255.128");
    assert_eq!(out.ranges[0].dhcp, vec![pool(1, 1)]);
    assert_eq!(out.ranges[1].addresses.len(), 2);
    assert_eq!(out.ranges[1].iprange.id, 2);
}

#[test]
fn dhcp_out_fails_on_bad_range() {
    let vlan = VLANData {
        id: 10,
        name: "users".to_string(),
        ranges: Some(vec![range(1, "10.0.0.0", 24), range(2, "bogus", 25)]),
    };
    let details = vec![
        RangeDetails { dhcp: vec![], addresses: vec![] },
        RangeDetails { dhcp: vec![], addresses: vec![] },
    ];
    assert!(DHCPOut::build(vlan, details).is_none());
}

#[test]
fn dhcp_out_empty_vlan() {
    let vlan = VLANData { id: 4, name: "empty".to_string(), ranges: Some(vec![]) };
    let out = DHCPOut::build(vlan, vec![]).unwrap();
    assert!(out.ranges.is_empty());
}
