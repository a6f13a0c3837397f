//! Network binding policy for native connections: which local addresses they
//! may use.

use vstd::prelude::*;

use crate::collections::{first_from, first_where, first_where_is_first};
use crate::text::{
    ascii_lower, concat2, concat3, contains, decimal, decimal_text, has_part, lower_text,
};

verus! {

/// The interface type of a proprietary virtual interface.
pub const IF_TYPE_PROP_VIRTUAL: u32 = 53;

/// The interface type of a tunnel.
pub const IF_TYPE_TUNNEL: u32 = 131;

/// How large the first buffer for the adapter list is, in bytes.
pub const INITIAL_ADAPTER_BUFFER_BYTES: usize = 15_360;

/// How often the adapter list is asked for.
pub const MAX_ADAPTER_BUFFER_ATTEMPTS: usize = 3;

/// The names by which tunnels and proxies are known, in lower case.
pub open spec fn tunnel_markers() -> Seq<Seq<char>> {
    seq![
        "wintun"@,
        "wireguard"@,
        "tun2socks"@,
        "tap-windows"@,
        "openvpn"@,
        "meta tunnel"@,
        "mihomo"@,
        "clash"@,
        "sing-box"@,
        "tailscale"@,
        "zerotier"@,
    ]
}

/// Whether an adapter is a tunnel or a proxy: by its type, or by a known name
/// in its friendly name or description.
pub open spec fn is_tunnel(if_type: u32, friendly: Seq<char>, description: Seq<char>) -> bool {
    ||| if_type == IF_TYPE_TUNNEL
    ||| if_type == IF_TYPE_PROP_VIRTUAL
    ||| exists|i: int|
        0 <= i < tunnel_markers().len() && has_part(
            lower_text(friendly + " "@ + description),
            #[trigger] tunnel_markers()[i],
        )
}

/// Whether an adapter is a tunnel or a proxy, which connections must not use.
pub fn is_tun_proxy_adapter(if_type: u32, friendly: &str, description: &str) -> (r: bool)
    ensures
        r == is_tunnel(if_type, friendly@, description@),
{
    if if_type == IF_TYPE_TUNNEL || if_type == IF_TYPE_PROP_VIRTUAL {
        return true;
    }
    let name = concat3(friendly, " ", description);
    let identity = ascii_lower(name.as_str());
    let markers = vec![
        "wintun",
        "wireguard",
        "tun2socks",
        "tap-windows",
        "openvpn",
        "meta tunnel",
        "mihomo",
        "clash",
        "sing-box",
        "tailscale",
        "zerotier",
    ];
    assert(markers@.map_values(|m: &'static str| m@) =~= tunnel_markers());
    let mut i: usize = 0;
    while i < markers.len()
        invariant
            i <= markers.len(),
            markers@.map_values(|m: &'static str| m@) == tunnel_markers(),
            identity@ == lower_text(friendly@ + " "@ + description@),
            forall|j: int|
                0 <= j < i ==> !has_part(identity@, #[trigger] tunnel_markers()[j]),
        decreases markers.len() - i,
    {
        assert(markers@.map_values(|m: &'static str| m@)[i as int] == markers@[i as int]@);
        if contains(identity.as_str(), markers[i]) {
            assert(has_part(identity@, tunnel_markers()[i as int]));
            return true;
        }
        i += 1;
    }
    assert(markers@.map_values(|m: &'static str| m@).len() == markers@.len());
    false
}

/// An IPv4 address.
#[derive(Debug, Clone, Copy, PartialEq, Eq, Structural)]
pub struct Ipv4 {
    /// First octet.
    pub a: u8,
    /// Second octet.
    pub b: u8,
    /// Third octet.
    pub c: u8,
    /// Fourth octet.
    pub d: u8,
}

/// The address as one number, in network order.
pub open spec fn ip_number(ip: Ipv4) -> int {
    ((ip.a * 256 + ip.b) * 256 + ip.c) * 256 + ip.d
}

/// Whether connections can use an address: it is not unspecified, loopback,
/// link-local, multicast or the broadcast address.
pub open spec fn usable(ip: Ipv4) -> bool {
    &&& !(ip.a == 0 && ip.b == 0 && ip.c == 0 && ip.d == 0)
    &&& ip.a != 127
    &&& !(ip.a == 169 && ip.b == 254)
    &&& !(224 <= ip.a <= 239)
    &&& !(ip.a == 255 && ip.b == 255 && ip.c == 255 && ip.d == 255)
}

/// Whether connections can use an address.
pub fn is_usable(ip: Ipv4) -> (r: bool)
    ensures
        r == usable(ip),
{
    !(ip.a == 0 && ip.b == 0 && ip.c == 0 && ip.d == 0) && ip.a != 127 && !(ip.a == 169 && ip.b
        == 254) && !(224 <= ip.a && ip.a <= 239) && !(ip.a == 255 && ip.b == 255 && ip.c == 255
        && ip.d == 255)
}

fn number_of(ip: Ipv4) -> (r: u32)
    ensures
        r == ip_number(ip),
{
    ((ip.a as u32 * 256 + ip.b as u32) * 256 + ip.c as u32) * 256 + ip.d as u32
}

proof fn lemma_number_is_unique(x: Ipv4, y: Ipv4)
    requires
        ip_number(x) == ip_number(y),
    ensures
        x == y,
{
}

/// What is known of one network adapter.
#[derive(Debug)]
pub struct NetworkAdapter {
    /// Whether it is up.
    pub up: bool,
    /// Its interface type.
    pub if_type: u32,
    /// The name the user sees.
    pub friendly: String,
    /// Its description.
    pub description: String,
    /// Its interface index.
    pub if_index: u32,
    /// Its IPv4 addresses.
    pub addresses: Vec<Ipv4>,
}

/// An address that connections are bound to, and its interface.
#[derive(Debug, Clone, Copy, PartialEq, Eq, Structural)]
pub struct Interface {
    /// The address.
    pub ip: Ipv4,
    /// The interface index.
    pub if_index: u32,
}

/// Whether an adapter may be used at all.
pub open spec fn eligible(adapter: NetworkAdapter) -> bool {
    adapter.up && !is_tunnel(adapter.if_type, adapter.friendly@, adapter.description@)
}

/// The usable addresses among the first `n` of an adapter, added to others;
/// an address that is there keeps its interface.
pub open spec fn with_addresses(
    known: Map<Ipv4, u32>,
    adapter: NetworkAdapter,
    n: int,
) -> Map<Ipv4, u32>
    decreases n,
{
    if n <= 0 {
        known
    } else {
        let before = with_addresses(known, adapter, n - 1);
        let ip = adapter.addresses@[n - 1];
        if usable(ip) && !before.contains_key(ip) {
            before.insert(ip, adapter.if_index)
        } else {
            before
        }
    }
}

/// The usable addresses of the first `n` adapters and their interfaces.
pub open spec fn address_map(adapters: Seq<NetworkAdapter>, n: int) -> Map<Ipv4, u32>
    decreases n,
{
    if n <= 0 {
        Map::empty()
    } else if eligible(adapters[n - 1]) {
        with_addresses(
            address_map(adapters, n - 1),
            adapters[n - 1],
            adapters[n - 1].addresses@.len() as int,
        )
    } else {
        address_map(adapters, n - 1)
    }
}

/// A list in ascending order of addresses, each of which occurs once.
pub open spec fn ascending(list: Seq<Interface>) -> bool {
    forall|i: int, j: int|
        0 <= i < j < list.len() ==> ip_number(#[trigger] list[i].ip) < ip_number(
            #[trigger] list[j].ip,
        )
}

/// The list holds exactly the entries of the map.
pub open spec fn lists(list: Seq<Interface>, map: Map<Ipv4, u32>) -> bool {
    &&& forall|i: int|
        0 <= i < list.len() ==> map.contains_key((#[trigger] list[i]).ip)
            && map[list[i].ip] == list[i].if_index
    &&& forall|ip: Ipv4| #[trigger]
        map.contains_key(ip) ==> exists|i: int| 0 <= i < list.len() && (#[trigger] list[i]).ip == ip
}

fn insert_address(list: &mut Vec<Interface>, ip: Ipv4, if_index: u32, map: Ghost<Map<Ipv4, u32>>)
    requires
        ascending(old(list)@),
        lists(old(list)@, map@),
    ensures
        ascending(final(list)@),
        lists(
            final(list)@,
            if map@.contains_key(ip) {
                map@
            } else {
                map@.insert(ip, if_index)
            },
        ),
{
    let ghost before = list@;
    let n: u32 = number_of(ip);
    let mut i: usize = 0;
    while i < list.len() && number_of(list[i].ip) < n
        invariant
            i <= list.len(),
            list@ == before,
            n == ip_number(ip),
            forall|j: int| 0 <= j < i ==> ip_number((#[trigger] before[j]).ip) < n,
        decreases list.len() - i,
    {
        i += 1;
    }
    if i < list.len() && number_of(list[i].ip) == n {
        proof {
            lemma_number_is_unique(before[i as int].ip, ip);
        }
        return;
    }
    proof {
        if map@.contains_key(ip) {
            let k = choose|k: int| 0 <= k < before.len() && (#[trigger] before[k]).ip == ip;
            assert(before[k].ip == ip);
            if i < before.len() && k > i {
                assert(ip_number(before[i as int].ip) < ip_number(before[k].ip));
            }
        }
    }
    let entry = Interface { ip, if_index };
    list.insert(i, entry);
    proof {
        let new_map = map@.insert(ip, if_index);
        let after = list@;
        assert(after =~= before.insert(i as int, entry));
        assert forall|x: int, y: int| 0 <= x < y < after.len() implies ip_number(
            #[trigger] after[x].ip,
        ) < ip_number(#[trigger] after[y].ip) by {
            if x < i {
                assert(after[x] == before[x]);
            } else if x > i {
                assert(after[x] == before[x - 1]);
            }
            if y < i {
                assert(after[y] == before[y]);
            } else if y > i {
                assert(after[y] == before[y - 1]);
                assert(ip_number(before[y - 1].ip) > n) by {
                    if y - 1 > i {
                        assert(ip_number(before[i as int].ip) < ip_number(before[y - 1].ip));
                    }
                }
            }
        }
        assert forall|x: int| 0 <= x < after.len() implies new_map.contains_key(
            (#[trigger] after[x]).ip,
        ) && new_map[after[x].ip] == after[x].if_index by {
            if x < i {
                assert(after[x] == before[x]);
            } else if x > i {
                assert(after[x] == before[x - 1]);
            }
        }
        assert forall|q: Ipv4| #[trigger] new_map.contains_key(q) implies exists|x: int|
            0 <= x < after.len() && (#[trigger] after[x]).ip == q by {
            if q == ip {
                assert(after[i as int].ip == q);
            } else {
                let k = choose|k: int| 0 <= k < before.len() && (#[trigger] before[k]).ip == q;
                if k < i {
                    assert(after[k].ip == q);
                } else {
                    assert(after[k + 1].ip == q);
                }
            }
        }
    }
}

/// The addresses that connections may be bound to, in ascending order, with
/// their interfaces: those of adapters that are up and are no tunnels.
pub fn non_tun_ipv4_interfaces(adapters: &Vec<NetworkAdapter>) -> (r: Vec<Interface>)
    ensures
        ascending(r@),
        lists(r@, address_map(adapters@, adapters@.len() as int)),
{
    let mut list: Vec<Interface> = Vec::new();
    let mut i: usize = 0;
    while i < adapters.len()
        invariant
            i <= adapters.len(),
            ascending(list@),
            lists(list@, address_map(adapters@, i as int)),
        decreases adapters.len() - i,
    {
        let adapter = &adapters[i];
        if adapter.up && !is_tun_proxy_adapter(
            adapter.if_type,
            adapter.friendly.as_str(),
            adapter.description.as_str(),
        ) {
            let ghost known = address_map(adapters@, i as int);
            let mut j: usize = 0;
            while j < adapter.addresses.len()
                invariant
                    j <= adapter.addresses.len(),
                    ascending(list@),
                    lists(list@, with_addresses(known, *adapter, j as int)),
                decreases adapter.addresses.len() - j,
            {
                let ip = adapter.addresses[j];
                if is_usable(ip) {
                    let ghost now = with_addresses(known, *adapter, j as int);
                    insert_address(&mut list, ip, adapter.if_index, Ghost(now));
                }
                j += 1;
            }
        }
        i += 1;
    }
    list
}

/// An address in dotted decimal, with the port that lets the system choose.
pub open spec fn any_port(ip: Ipv4) -> Seq<char> {
    decimal_text(ip.a as nat) + "."@ + decimal_text(ip.b as nat) + "."@ + decimal_text(
        ip.c as nat,
    ) + "."@ + decimal_text(ip.d as nat) + ":0"@
}

fn bind_address(ip: Ipv4) -> (r: String)
    ensures
        r@ == any_port(ip),
{
    let mut out = decimal(ip.a as u64);
    out.append(".");
    out.append(decimal(ip.b as u64).as_str());
    out.append(".");
    out.append(decimal(ip.c as u64).as_str());
    out.append(".");
    out.append(decimal(ip.d as u64).as_str());
    out.append(":0");
    out
}

/// The local addresses to bind to, one for each interface; an error where
/// there is none.
pub fn bind_addresses(interfaces: &Vec<Interface>) -> (r: Result<Vec<String>, String>)
    ensures
        if interfaces@.len() == 0 {
            r is Err && r->Err_0@ == "no active non-TUN IPv4 network interface is available"@
        } else {
            &&& r is Ok
            &&& r->Ok_0@.len() == interfaces@.len()
            &&& forall|i: int|
                0 <= i < interfaces@.len() ==> (#[trigger] r->Ok_0@[i])@ == any_port(
                    interfaces@[i].ip,
                )
        },
{
    if interfaces.len() == 0 {
        return Err("no active non-TUN IPv4 network interface is available".to_owned());
    }
    let mut out: Vec<String> = Vec::new();
    let mut i: usize = 0;
    while i < interfaces.len()
        invariant
            i <= interfaces.len(),
            out@.len() == i,
            forall|j: int|
                0 <= j < i ==> (#[trigger] out@[j])@ == any_port(interfaces@[j].ip),
        decreases interfaces.len() - i,
    {
        out.push(bind_address(interfaces[i].ip));
        i += 1;
    }
    Ok(out)
}

/// The interface that an address is pinned to, where it is one of these.
pub open spec fn pinned(list: Seq<Interface>, ip: Ipv4) -> Option<u32> {
    match first_where(list, |f: Interface| f.ip == ip) {
        Some(i) => Some(list[i].if_index),
        None => None,
    }
}

/// The interface that a socket with this local address is pinned to.
pub fn interface_of(interfaces: &Vec<Interface>, ip: Ipv4) -> (r: Option<u32>)
    ensures
        r == pinned(interfaces@, ip),
{
    let ghost named = |f: Interface| f.ip == ip;
    let mut i: usize = 0;
    while i < interfaces.len()
        invariant
            i <= interfaces.len(),
            named == (|f: Interface| f.ip == ip),
            first_where(interfaces@, named)
                == first_from(interfaces@, named, i as int),
        decreases interfaces.len() - i,
    {
        if interfaces[i].ip == ip {
            return Some(interfaces[i].if_index);
        }
        i += 1;
    }
    None
}

/// A buffer of this many words and bytes holds that many bytes.
pub open spec fn holds_bytes(bytes: int, buffer: (usize, u32)) -> bool {
    let (words, size) = buffer;
    &&& size == 8 * words
    &&& bytes <= size < bytes + 8
}

/// The size of a buffer for the adapter list: enough 64-bit words for the bytes
/// asked for, and the bytes that these are.
pub fn adapter_buffer(bytes: usize) -> (r: Result<(usize, u32), String>)
    ensures
        match r {
            Ok((words, size)) => {
                &&& words == (bytes + 7) / 8
                &&& size == words * 8
            },
            Err(e) => (bytes + 7) / 8 * 8 > u32::MAX && e@ == "network adapter list is too large"@,
        },
        r is Ok ==> holds_bytes(bytes as int, r->Ok_0),
{
    let rest: usize = if bytes % 8 == 0 { 0 } else { 1 };
    let words: usize = bytes / 8 + rest;
    if words > 0x1fff_ffff {
        Err("network adapter list is too large".to_owned())
    } else {
        Ok((words, words as u32 * 8))
    }
}

/// How asking for the adapter list came out.
#[derive(Debug, PartialEq, Eq)]
pub enum ListOutcome {
    /// The buffer holds the list.
    Filled,
    /// The buffer is too small; this many bytes are needed.
    TooSmall(u32),
    /// The system refused, for this reason.
    Refused(String),
}

/// This is what follows an attempt to get the adapter list.
pub open spec fn follows(attempt: int, outcome: ListOutcome, r: Result<Option<usize>, String>) -> bool {
    match outcome {
        ListOutcome::Filled => r is Ok && r->Ok_0 is None,
        ListOutcome::TooSmall(needed) => if attempt < 3 {
            r is Ok && r->Ok_0 == Some(needed as usize)
        } else {
            r is Err && r->Err_0@
                == "Windows network adapter list kept changing during enumeration"@
        },
        ListOutcome::Refused(reason) => r is Err && r->Err_0@
            == "could not enumerate Windows network adapters: "@ + reason@,
    }
}

/// What follows: use the list, ask again with a buffer of this size, or fail.
pub fn after_attempt(attempt: usize, outcome: ListOutcome) -> (r: Result<Option<usize>, String>)
    ensures
        match outcome {
            ListOutcome::Filled => r == Ok::<Option<usize>, String>(None),
            ListOutcome::TooSmall(needed) => if attempt < MAX_ADAPTER_BUFFER_ATTEMPTS {
                r == Ok::<Option<usize>, String>(Some(needed as usize))
            } else {
                &&& r is Err
                &&& r->Err_0@
                    == "Windows network adapter list kept changing during enumeration"@
            },
            ListOutcome::Refused(reason) => {
                &&& r is Err
                &&& r->Err_0@ == "could not enumerate Windows network adapters: "@ + reason@
            },
        },
        follows(attempt as int, outcome, r),
{
    match outcome {
        ListOutcome::Filled => Ok(None),
        ListOutcome::TooSmall(needed) => {
            if attempt < MAX_ADAPTER_BUFFER_ATTEMPTS {
                Ok(Some(needed as usize))
            } else {
                Err("Windows network adapter list kept changing during enumeration".to_owned())
            }
        },
        ListOutcome::Refused(reason) => Err(
            concat2("could not enumerate Windows network adapters: ", reason.as_str()),
        ),
    }
}

proof fn lemma_map_is_usable(adapters: Seq<NetworkAdapter>, n: int)
    requires
        0 <= n <= adapters.len(),
    ensures
        forall|ip: Ipv4| #[trigger]
            address_map(adapters, n).contains_key(ip) ==> usable(ip) && exists|k: int|
                0 <= k < n && eligible(#[trigger] adapters[k]) && adapters[k].addresses@.contains(
                    ip,
                ) && adapters[k].if_index == address_map(adapters, n)[ip],
    decreases n,
{
    if n > 0 {
        lemma_map_is_usable(adapters, n - 1);
        if eligible(adapters[n - 1]) {
            lemma_addresses_are_usable(
                adapters,
                n,
                adapters[n - 1].addresses@.len() as int,
            );
            let all = with_addresses(
                address_map(adapters, n - 1),
                adapters[n - 1],
                adapters[n - 1].addresses@.len() as int,
            );
            assert(address_map(adapters, n) == all);
            assert forall|q: Ipv4| #[trigger] address_map(adapters, n).contains_key(
                q,
            ) implies usable(q) && exists|k: int|
                0 <= k < n && eligible(#[trigger] adapters[k]) && adapters[k].addresses@.contains(q)
                    && adapters[k].if_index == address_map(adapters, n)[q] by {
                assert(all.contains_key(q));
            }
        } else {
            let known = address_map(adapters, n - 1);
            assert(address_map(adapters, n) == known);
            assert forall|q: Ipv4| #[trigger] known.contains_key(q) implies usable(q) && exists|
                k: int,
            |
                0 <= k < n && eligible(#[trigger] adapters[k]) && adapters[k].addresses@.contains(q)
                    && adapters[k].if_index == known[q] by {
                let k = choose|k: int|
                    0 <= k < n - 1 && eligible(#[trigger] adapters[k])
                        && adapters[k].addresses@.contains(q) && adapters[k].if_index == known[q];
                assert(eligible(adapters[k]));
            }
        }
    }
}

proof fn lemma_addresses_are_usable(adapters: Seq<NetworkAdapter>, n: int, m: int)
    requires
        0 < n <= adapters.len(),
        eligible(adapters[n - 1]),
        0 <= m <= adapters[n - 1].addresses@.len(),
        forall|ip: Ipv4| #[trigger]
            address_map(adapters, n - 1).contains_key(ip) ==> usable(ip) && exists|k: int|
                0 <= k < n - 1 && eligible(#[trigger] adapters[k])
                    && adapters[k].addresses@.contains(ip) && adapters[k].if_index == address_map(
                    adapters,
                    n - 1,
                )[ip],
    ensures
        forall|ip: Ipv4| #[trigger]
            with_addresses(address_map(adapters, n - 1), adapters[n - 1], m).contains_key(ip)
                ==> usable(ip) && exists|k: int|
                0 <= k < n && eligible(#[trigger] adapters[k]) && adapters[k].addresses@.contains(
                    ip,
                ) && adapters[k].if_index == with_addresses(
                    address_map(adapters, n - 1),
                    adapters[n - 1],
                    m,
                )[ip],
    decreases m,
{
    if m > 0 {
        lemma_addresses_are_usable(adapters, n, m - 1);
        let ip = adapters[n - 1].addresses@[m - 1];
        assert(adapters[n - 1].addresses@.contains(ip));
        let before = with_addresses(address_map(adapters, n - 1), adapters[n - 1], m - 1);
        let after = with_addresses(address_map(adapters, n - 1), adapters[n - 1], m);
        assert forall|q: Ipv4| #[trigger] after.contains_key(q) implies usable(q) && exists|k: int|
            0 <= k < n && eligible(#[trigger] adapters[k]) && adapters[k].addresses@.contains(q)
                && adapters[k].if_index == after[q] by {
            if q == ip && !before.contains_key(ip) {
                assert(eligible(adapters[n - 1]));
            } else {
                assert(before.contains_key(q));
            }
        }
    } else {
        let known = address_map(adapters, n - 1);
        assert forall|q: Ipv4| #[trigger] known.contains_key(q) implies usable(q) && exists|k: int|
            0 <= k < n && eligible(#[trigger] adapters[k]) && adapters[k].addresses@.contains(q)
                && adapters[k].if_index == known[q] by {
            let k = choose|k: int|
                0 <= k < n - 1 && eligible(#[trigger] adapters[k])
                    && adapters[k].addresses@.contains(q) && adapters[k].if_index == known[q];
            assert(eligible(adapters[k]));
        }
    }
}

/// Connections only ever use usable addresses of adapters that are up and are
/// neither tunnels nor proxies, each pinned to the interface it belongs to.
pub proof fn only_eligible_addresses_are_used(adapters: Seq<NetworkAdapter>, ip: Ipv4)
    requires
        address_map(adapters, adapters.len() as int).contains_key(ip),
    ensures
        usable(ip),
        exists|k: int|
            0 <= k < adapters.len() && eligible(#[trigger] adapters[k])
                && adapters[k].addresses@.contains(ip) && adapters[k].if_index == address_map(
                adapters,
                adapters.len() as int,
            )[ip],
{
    lemma_map_is_usable(adapters, adapters.len() as int);
}

/// The list is asked for again, with as much room as was said to be needed, up
/// to the third attempt; a list that was got is used, a refusal is final.
pub proof fn the_list_is_asked_for_three_times(
    attempt: int,
    needed: u32,
    reason: String,
    r: Result<Option<usize>, String>,
)
    ensures
        follows(attempt, ListOutcome::Filled, r) ==> r == Ok::<Option<usize>, String>(None),
        follows(attempt, ListOutcome::TooSmall(needed), r) && attempt <= 2 ==> r == Ok::<
            Option<usize>,
            String,
        >(Some(needed as usize)),
        follows(attempt, ListOutcome::TooSmall(needed), r) && attempt >= 3 ==> r is Err,
        follows(attempt, ListOutcome::Refused(reason), r) ==> r is Err,
{
}

/// A buffer has room for all that is asked for, and for less than one word more.
pub proof fn a_buffer_has_room(bytes: int, words: usize, size: u32)
    requires
        holds_bytes(bytes, (words, size)),
    ensures
        bytes <= words * 8 < bytes + 8,
        size == words * 8,
{
}

/// Adapters of the two virtual types are tunnels whatever they are called, and
/// so is every adapter with a known name in either of its texts, in whatever
/// letters.
pub proof fn tunnels_are_recognised(
    if_type: u32,
    friendly: Seq<char>,
    description: Seq<char>,
    marker: Seq<char>,
)
    ensures
        is_tunnel(131, friendly, description),
        is_tunnel(53, friendly, description),
        tunnel_markers().contains(marker) && has_part(
            lower_text(friendly + " "@ + description),
            marker,
        ) ==> is_tunnel(if_type, friendly, description),
        if_type != 131 && if_type != 53 && (forall|m: Seq<char>| #[trigger]
            tunnel_markers().contains(m) ==> !has_part(
                lower_text(friendly + " "@ + description),
                m,
            )) ==> !is_tunnel(if_type, friendly, description),
        tunnel_markers().len() == 11,
        tunnel_markers().contains("wintun"@),
        tunnel_markers().contains("wireguard"@),
        tunnel_markers().contains("tun2socks"@),
        tunnel_markers().contains("tap-windows"@),
        tunnel_markers().contains("openvpn"@),
        tunnel_markers().contains("meta tunnel"@),
        tunnel_markers().contains("mihomo"@),
        tunnel_markers().contains("clash"@),
        tunnel_markers().contains("sing-box"@),
        tunnel_markers().contains("tailscale"@),
        tunnel_markers().contains("zerotier"@),
{
    let all = tunnel_markers();
    assert(all[0] == "wintun"@ && all[1] == "wireguard"@ && all[2] == "tun2socks"@);
    assert(all[3] == "tap-windows"@ && all[4] == "openvpn"@ && all[5] == "meta tunnel"@);
    assert(all[6] == "mihomo"@ && all[7] == "clash"@ && all[8] == "sing-box"@);
    assert(all[9] == "tailscale"@ && all[10] == "zerotier"@);
    if tunnel_markers().contains(marker) {
        let i = choose|i: int| 0 <= i < all.len() && all[i] == marker;
        assert(tunnel_markers()[i] == marker);
    }
    if is_tunnel(if_type, friendly, description) && if_type != 131 && if_type != 53 {
        let i = choose|i: int|
            0 <= i < tunnel_markers().len() && has_part(
                lower_text(friendly + " "@ + description),
                #[trigger] tunnel_markers()[i],
            );
        assert(tunnel_markers().contains(tunnel_markers()[i]));
    }
}

/// Addresses that reach nobody else are not used, and all others are.
pub proof fn addresses_that_reach_others_are_usable(ip: Ipv4)
    ensures
        ip.a == 127 ==> !usable(ip),
        ip.a == 169 && ip.b == 254 ==> !usable(ip),
        224 <= ip.a <= 239 ==> !usable(ip),
        ip_number(ip) == 0 || ip_number(ip) == 0xffff_ffff ==> !usable(ip),
        ip_number(ip) != 0 && ip_number(ip) != 0xffff_ffff && ip.a != 127 && !(ip.a == 169 && ip.b
            == 254) && !(224 <= ip.a <= 239) ==> usable(ip),
{
}

proof fn lemma_addresses_stay(known: Map<Ipv4, u32>, adapter: NetworkAdapter, n: int, ip: Ipv4)
    requires
        0 <= n <= adapter.addresses@.len(),
        known.contains_key(ip),
    ensures
        with_addresses(known, adapter, n).contains_key(ip),
        with_addresses(known, adapter, n)[ip] == known[ip],
    decreases n,
{
    if n > 0 {
        lemma_addresses_stay(known, adapter, n - 1, ip);
    }
}

proof fn lemma_addresses_are_there(
    known: Map<Ipv4, u32>,
    adapter: NetworkAdapter,
    n: int,
    k: int,
)
    requires
        0 <= k < n <= adapter.addresses@.len(),
        usable(adapter.addresses@[k]),
    ensures
        with_addresses(known, adapter, n).contains_key(adapter.addresses@[k]),
        !known.contains_key(adapter.addresses@[k]) ==> with_addresses(
            known,
            adapter,
            n,
        )[adapter.addresses@[k]] == adapter.if_index,
    decreases n,
{
    let ip = adapter.addresses@[k];
    if k < n - 1 {
        lemma_addresses_are_there(known, adapter, n - 1, k);
    } else if !known.contains_key(ip) && with_addresses(known, adapter, n - 1).contains_key(ip) {
        lemma_only_its_own(known, adapter, n - 1, ip);
    }
}

proof fn lemma_only_its_own(known: Map<Ipv4, u32>, adapter: NetworkAdapter, n: int, ip: Ipv4)
    requires
        0 <= n <= adapter.addresses@.len(),
        !known.contains_key(ip),
        with_addresses(known, adapter, n).contains_key(ip),
    ensures
        with_addresses(known, adapter, n)[ip] == adapter.if_index,
    decreases n,
{
    if n > 0 && with_addresses(known, adapter, n - 1).contains_key(ip) {
        lemma_only_its_own(known, adapter, n - 1, ip);
    }
}

proof fn lemma_adapters_stay(adapters: Seq<NetworkAdapter>, m: int, n: int, ip: Ipv4)
    requires
        0 <= m <= n <= adapters.len(),
        address_map(adapters, m).contains_key(ip),
    ensures
        address_map(adapters, n).contains_key(ip),
        address_map(adapters, n)[ip] == address_map(adapters, m)[ip],
    decreases n,
{
    if m < n {
        lemma_adapters_stay(adapters, m, n - 1, ip);
        if eligible(adapters[n - 1]) {
            lemma_addresses_stay(
                address_map(adapters, n - 1),
                adapters[n - 1],
                adapters[n - 1].addresses@.len() as int,
                ip,
            );
        }
    }
}

/// Every usable address of an adapter that is up and no tunnel is used, pinned
/// to the first such adapter that has it.
pub proof fn every_eligible_address_is_used(adapters: Seq<NetworkAdapter>, a: int, k: int)
    requires
        0 <= a < adapters.len(),
        adapters[a].up,
        !is_tunnel(adapters[a].if_type, adapters[a].friendly@, adapters[a].description@),
        0 <= k < adapters[a].addresses@.len(),
        usable(adapters[a].addresses@[k]),
    ensures
        address_map(adapters, adapters.len() as int).contains_key(adapters[a].addresses@[k]),
        (forall|b: int|
            0 <= b < a && eligible(#[trigger] adapters[b]) ==> !adapters[b].addresses@.contains(
                adapters[a].addresses@[k],
            )) ==> address_map(adapters, adapters.len() as int)[adapters[a].addresses@[k]]
            == adapters[a].if_index,
{
    let ip = adapters[a].addresses@[k];
    lemma_addresses_are_there(
        address_map(adapters, a),
        adapters[a],
        adapters[a].addresses@.len() as int,
        k,
    );
    assert(address_map(adapters, a + 1).contains_key(ip));
    lemma_adapters_stay(adapters, a + 1, adapters.len() as int, ip);
    lemma_map_is_usable(adapters, a);
}

/// A socket is pinned to the interface that its address belongs to; an address
/// that is none of these is pinned to nothing.
pub proof fn sockets_are_pinned_to_their_interface(list: Seq<Interface>, ip: Ipv4, k: int)
    requires
        ascending(list),
        0 <= k < list.len(),
    ensures
        pinned(list, list[k].ip) == Some(list[k].if_index),
        (forall|j: int| 0 <= j < list.len() ==> (#[trigger] list[j]).ip != ip) ==> pinned(list, ip)
            is None,
{
    let own = |f: Interface| f.ip == list[k].ip;
    first_where_is_first(list, own);
    assert(own(list[k]));
    let i = first_where(list, own)->0;
    assert(own(list[i]));
    if i < k {
        assert(ip_number(list[i].ip) < ip_number(list[k].ip));
    } else if k < i {
        assert(!own(list[k]));
    }
    let named = |f: Interface| f.ip == ip;
    first_where_is_first(list, named);
    if let Some(j) = first_where(list, named) {
        assert(named(list[j]));
    }
}

/// An address is bound to in dotted decimal, first octet first, with the port
/// that lets the system choose.
pub proof fn addresses_are_written_in_order(ip: Ipv4)
    ensures
        any_port(ip) == decimal_text(ip.a as nat) + "."@ + decimal_text(ip.b as nat) + "."@
            + decimal_text(ip.c as nat) + "."@ + decimal_text(ip.d as nat) + ":0"@,
{
}

} // verus!
