//! Logical network-interface records.  The raw per-address entries come
//! from the operating system's interface walk; merging them into one
//! record per interface name, and the textual MAC form, are decided
//! here.

use vstd::prelude::*;

use crate::strutil::str_is;

verus! {

/// An IPv4 address entry of an interface.
#[derive(Debug, Clone, Copy, PartialEq, Eq)]
pub struct V4IfAddr {
    pub ip: [u8; 4],
    pub broadcast: Option<[u8; 4]>,
    pub netmask: Option<[u8; 4]>,
}

/// An IPv6 address entry of an interface.
#[derive(Debug, Clone, Copy, PartialEq, Eq)]
pub struct V6IfAddr {
    pub ip: [u8; 16],
    pub broadcast: Option<[u8; 16]>,
    pub netmask: Option<[u8; 16]>,
}

/// One address of either family.
#[derive(Debug, Clone, Copy, PartialEq, Eq)]
pub enum Addr {
    V4(V4IfAddr),
    V6(V6IfAddr),
}

/// One logical interface: its name, all of its addresses, its hardware
/// address when known, and the OS interface index.
#[derive(Debug, Clone, PartialEq, Eq)]
pub struct NetworkInterface {
    pub name: String,
    pub addr: Vec<Addr>,
    pub mac_addr: Option<String>,
    pub index: u32,
}

/// Mathematical model of a [`NetworkInterface`].
pub struct NetworkInterfaceModel {
    pub name: Seq<char>,
    pub addr: Seq<Addr>,
    pub mac_addr: Option<Seq<char>>,
    pub index: u32,
}

impl View for NetworkInterface {
    type V = NetworkInterfaceModel;

    open spec fn view(&self) -> NetworkInterfaceModel {
        NetworkInterfaceModel {
            name: self.name@,
            addr: self.addr@,
            mac_addr: match self.mac_addr {
                Some(ref m) => Some(m@),
                None => None,
            },
            index: self.index,
        }
    }
}

impl NetworkInterface {
    /// A record holding a single IPv4 address and no hardware address.
    pub fn new_afinet(
        name: &str,
        addr: [u8; 4],
        netmask: Option<[u8; 4]>,
        broadcast: Option<[u8; 4]>,
        index: u32,
    ) -> (r: NetworkInterface)
        ensures
            r@.name == name@,
            r@.addr == seq![Addr::V4(V4IfAddr { ip: addr, broadcast, netmask })],
            r@.mac_addr is None,
            r@.index == index,
    {
        let ifaddr_v4 = V4IfAddr { ip: addr, broadcast, netmask };
        let mut one: Vec<Addr> = Vec::new();
        one.push(Addr::V4(ifaddr_v4));
        proof {
            assert(one@ =~= seq![Addr::V4(V4IfAddr { ip: addr, broadcast, netmask })]);
        }
        NetworkInterface { name: String::from_str(name), addr: one, mac_addr: None, index }
    }

    /// A record holding a single IPv6 address and no hardware address.
    pub fn new_afinet6(
        name: &str,
        addr: [u8; 16],
        netmask: Option<[u8; 16]>,
        broadcast: Option<[u8; 16]>,
        index: u32,
    ) -> (r: NetworkInterface)
        ensures
            r@.name == name@,
            r@.addr == seq![Addr::V6(V6IfAddr { ip: addr, broadcast, netmask })],
            r@.mac_addr is None,
            r@.index == index,
    {
        let ifaddr_v6 = V6IfAddr { ip: addr, broadcast, netmask };
        let mut one: Vec<Addr> = Vec::new();
        one.push(Addr::V6(ifaddr_v6));
        proof {
            assert(one@ =~= seq![Addr::V6(V6IfAddr { ip: addr, broadcast, netmask })]);
        }
        NetworkInterface { name: String::from_str(name), addr: one, mac_addr: None, index }
    }
}

/// The sixteen lowercase hexadecimal digits.
pub open spec fn spec_hex_digit(n: int) -> char {
    if n == 0 { '0' } else if n == 1 { '1' } else if n == 2 { '2' } else if n == 3 { '3' }
    else if n == 4 { '4' } else if n == 5 { '5' } else if n == 6 { '6' } else if n == 7 { '7' }
    else if n == 8 { '8' } else if n == 9 { '9' } else if n == 10 { 'a' } else if n == 11 { 'b' }
    else if n == 12 { 'c' } else if n == 13 { 'd' } else if n == 14 { 'e' } else { 'f' }
}

/// One byte as two lowercase hexadecimal digits.
pub open spec fn spec_hex_byte(b: u8) -> Seq<char> {
    seq![spec_hex_digit(b as int / 16), spec_hex_digit(b as int % 16)]
}

/// A hardware address as colon-separated lowercase hexadecimal byte
/// pairs.
pub open spec fn spec_mac_string(bytes: Seq<u8>) -> Seq<char>
    decreases bytes.len(),
{
    if bytes.len() == 0 {
        Seq::empty()
    } else if bytes.len() == 1 {
        spec_hex_byte(bytes[0])
    } else {
        spec_hex_byte(bytes[0]) + seq![':'] + spec_mac_string(bytes.drop_first())
    }
}

fn hex_digit_str(n: u8) -> (v: &'static str)
    requires
        n < 16,
    ensures
        v@ == seq![spec_hex_digit(n as int)],
{
    proof {
        reveal_strlit("0");
        reveal_strlit("1");
        reveal_strlit("2");
        reveal_strlit("3");
        reveal_strlit("4");
        reveal_strlit("5");
        reveal_strlit("6");
        reveal_strlit("7");
        reveal_strlit("8");
        reveal_strlit("9");
        reveal_strlit("a");
        reveal_strlit("b");
        reveal_strlit("c");
        reveal_strlit("d");
        reveal_strlit("e");
        reveal_strlit("f");
    }
    if n == 0 { "0" } else if n == 1 { "1" } else if n == 2 { "2" } else if n == 3 { "3" }
    else if n == 4 { "4" } else if n == 5 { "5" } else if n == 6 { "6" } else if n == 7 { "7" }
    else if n == 8 { "8" } else if n == 9 { "9" } else if n == 10 { "a" } else if n == 11 { "b" }
    else if n == 12 { "c" } else if n == 13 { "d" } else if n == 14 { "e" } else { "f" }
}

fn hex_byte_string(b: u8) -> (r: String)
    ensures
        r@ == spec_hex_byte(b),
{
    let hi = hex_digit_str(b / 16);
    let lo = hex_digit_str(b % 16);
    let r = String::from_str(hi).concat(lo);
    proof {
        assert(r@ =~= spec_hex_byte(b));
    }
    r
}

fn mac_from(bytes: &Vec<u8>, i: usize) -> (r: String)
    requires
        i <= bytes@.len(),
    ensures
        r@ == spec_mac_string(bytes@.skip(i as int)),
    decreases bytes@.len() - i,
{
    let n = bytes.len();
    if i == n {
        proof {
            assert(bytes@.skip(i as int) =~= Seq::<u8>::empty());
        }
        String::new()
    } else if i + 1 == n {
        let r = hex_byte_string(bytes[i]);
        proof {
            assert(bytes@.skip(i as int).len() == 1);
            assert(bytes@.skip(i as int)[0] == bytes@[i as int]);
        }
        r
    } else {
        let rest = mac_from(bytes, i + 1);
        let mut r = hex_byte_string(bytes[i]);
        r.append(":");
        r.append(rest.as_str());
        proof {
            let tail = bytes@.skip(i as int);
            assert(tail[0] == bytes@[i as int]);
            assert(tail.drop_first() =~= bytes@.skip(i + 1));
            assert(":"@ =~= seq![':']) by {
                reveal_strlit(":");
            }
            assert(r@ =~= spec_mac_string(tail));
        }
        r
    }
}

/// Format a hardware address, as colon-separated lowercase hexadecimal
/// byte pairs.
pub fn mac_string(bytes: &Vec<u8>) -> (r: String)
    ensures
        r@ == spec_mac_string(bytes@),
{
    let r = mac_from(bytes, 0);
    proof {
        assert(bytes@.skip(0) =~= bytes@);
    }
    r
}

/// Index of the first merged record with this interface name.
pub open spec fn spec_index_by_name(
    acc: Seq<NetworkInterfaceModel>,
    name: Seq<char>,
) -> Option<int>
    decreases acc.len(),
{
    if acc.len() == 0 {
        None
    } else if acc[0].name == name {
        Some(0int)
    } else {
        match spec_index_by_name(acc.drop_first(), name) {
            Some(i) => Some(i + 1),
            None => None,
        }
    }
}

/// What one raw per-address record contributes to the merged list: the
/// first record of a name establishes the entry (keeping its hardware
/// address and index), later records of the same name only append their
/// addresses.
pub open spec fn spec_merge_step(
    acc: Seq<NetworkInterfaceModel>,
    r: NetworkInterfaceModel,
) -> Seq<NetworkInterfaceModel> {
    match spec_index_by_name(acc, r.name) {
        Some(k) => acc.update(
            k,
            NetworkInterfaceModel {
                name: acc[k].name,
                addr: acc[k].addr + r.addr,
                mac_addr: acc[k].mac_addr,
                index: acc[k].index,
            },
        ),
        None => acc.push(r),
    }
}

pub open spec fn spec_merge_fold(
    records: Seq<NetworkInterfaceModel>,
    acc: Seq<NetworkInterfaceModel>,
) -> Seq<NetworkInterfaceModel>
    decreases records.len(),
{
    if records.len() == 0 {
        acc
    } else {
        spec_merge_fold(records.drop_first(), spec_merge_step(acc, records[0]))
    }
}

/// The merged interface list: one record per name, in order of first
/// appearance, with all addresses of that name collected.
pub open spec fn spec_merge(records: Seq<NetworkInterfaceModel>) -> Seq<NetworkInterfaceModel> {
    spec_merge_fold(records, Seq::empty())
}

fn find_by_name(acc: &Vec<NetworkInterface>, name: &str, i: usize) -> (r: Option<usize>)
    requires
        i <= acc@.len(),
    ensures
        ({
            let m = crate::protocol::interfaces_model(acc@);
            match r {
                Some(k) => i <= k < acc@.len() && spec_index_by_name(m.skip(i as int), name@)
                    == Some(k - i),
                None => spec_index_by_name(m.skip(i as int), name@) is None,
            }
        }),
    decreases acc@.len() - i,
{
    let ghost m = crate::protocol::interfaces_model(acc@);
    let n = acc.len();
    if i == n {
        proof {
            assert(m.skip(i as int) =~= Seq::<NetworkInterfaceModel>::empty());
        }
        None
    } else {
        proof {
            assert(m.skip(i as int)[0] == m[i as int]);
            assert(m[i as int] == acc@[i as int]@);
            assert(m.skip(i as int).drop_first() =~= m.skip(i + 1));
        }
        if str_is(acc[i].name.as_str(), name) {
            Some(i)
        } else {
            find_by_name(acc, name, i + 1)
        }
    }
}

fn copy_addrs(addr: &Vec<Addr>, into: &mut Vec<Addr>)
    ensures
        final(into)@ == old(into)@ + addr@,
{
    let ghost base = into@;
    let n = addr.len();
    let mut j: usize = 0;
    proof {
        assert(base + addr@.take(0) =~= base);
    }
    while j < n
        invariant
            n == addr.len(),
            0 <= j <= n,
            into@ == base + addr@.take(j as int),
        decreases n - j,
    {
        into.push(addr[j]);
        proof {
            assert(base + addr@.take(j + 1) =~= (base + addr@.take(j as int)).push(
                addr@[j as int],
            ));
        }
        j += 1;
    }
    proof {
        assert(addr@.take(n as int) =~= addr@);
    }
}

fn copy_interface(r: &NetworkInterface) -> (c: NetworkInterface)
    ensures
        c@ == r@,
{
    let mut addr: Vec<Addr> = Vec::new();
    copy_addrs(&r.addr, &mut addr);
    proof {
        assert(addr@ =~= r.addr@);
    }
    let mac_addr = match &r.mac_addr {
        Some(s) => Some(s.clone()),
        None => None,
    };
    NetworkInterface { name: r.name.clone(), addr, mac_addr, index: r.index }
}

/// Merge the raw per-address records into one record per logical
/// interface name, in order of first appearance; the first record of a
/// name keeps its hardware address and index, and every record of that
/// name contributes its addresses, in order.
pub fn merge_interfaces(records: &Vec<NetworkInterface>) -> (merged: Vec<NetworkInterface>)
    ensures
        crate::protocol::interfaces_model(merged@) == spec_merge(
            crate::protocol::interfaces_model(records@),
        ),
{
    let ghost rm = crate::protocol::interfaces_model(records@);
    let mut merged: Vec<NetworkInterface> = Vec::new();
    let n = records.len();
    let mut i: usize = 0;
    proof {
        assert(rm.skip(0) =~= rm);
        assert(crate::protocol::interfaces_model(merged@)
            =~= Seq::<NetworkInterfaceModel>::empty());
    }
    while i < n
        invariant
            n == records.len(),
            0 <= i <= n,
            rm == crate::protocol::interfaces_model(records@),
            spec_merge_fold(rm.skip(i as int), crate::protocol::interfaces_model(merged@))
                == spec_merge(rm),
        decreases n - i,
    {
        let ghost acc = crate::protocol::interfaces_model(merged@);
        proof {
            assert(rm.skip(i as int)[0] == rm[i as int]);
            assert(rm[i as int] == records@[i as int]@);
            assert(rm.skip(i as int).drop_first() =~= rm.skip(i + 1));
        }
        match find_by_name(&merged, records[i].name.as_str(), 0) {
            Some(k) => {
                proof {
                    assert(acc.skip(0) =~= acc);
                }
                let entry = merged.remove(k);
                let mut addr = entry.addr;
                copy_addrs(&records[i].addr, &mut addr);
                let updated = NetworkInterface {
                    name: entry.name,
                    addr,
                    mac_addr: entry.mac_addr,
                    index: entry.index,
                };
                merged.insert(k, updated);
                proof {
                    assert(crate::protocol::interfaces_model(merged@) =~= spec_merge_step(
                        acc,
                        rm[i as int],
                    ));
                }
            },
            None => {
                proof {
                    assert(acc.skip(0) =~= acc);
                }
                let fresh = copy_interface(&records[i]);
                merged.push(fresh);
                proof {
                    assert(crate::protocol::interfaces_model(merged@) =~= spec_merge_step(
                        acc,
                        rm[i as int],
                    ));
                }
            },
        }
        i += 1;
    }
    proof {
        assert(rm.skip(n as int) =~= Seq::<NetworkInterfaceModel>::empty());
    }
    merged
}

/// The interface-list notification.
pub fn interfaces_message(list: Vec<NetworkInterface>) -> (m:
    crate::protocol::WebSocketMessage)
    ensures
        m@ == (crate::protocol::MessageModel {
            t: Some("NETWORK_INTERFACES"@),
            op: crate::protocol::OP_CONTROL,
            d: Some(crate::protocol::PayloadModel::Interfaces(
                crate::protocol::interfaces_model(list@),
            )),
        }),
{
    crate::protocol::WebSocketMessage::notification(
        "NETWORK_INTERFACES",
        crate::protocol::OP_CONTROL,
        crate::protocol::Payload::Interfaces(list),
    )
}

} // verus!
