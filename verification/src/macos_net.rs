//! macOS network facts read from `ifconfig` output: interface kinds by
//! name, the interface list, and the interface preferred for multicast.
use vstd::prelude::*;
use crate::ip::{parse_ip, parse_ip_address, IpAddress};
use crate::linux_net::{begins_with, holds};
use crate::platform::{interface_views, InterfaceKind, InterfaceType, InterfaceView, NetworkInterface};
use crate::text::{
    chars_of, concat2, contains, lines, split, split_lines, split_on, split_words, starts_with,
    string_of, trim, trimmed, views, words,
};

verus! {

/// The kind of a macOS interface, by its name: `en0` is the built-in
/// Ethernet port, other `en` ports Wi-Fi.
pub open spec fn macos_kind(name: Seq<char>) -> InterfaceKind {
    if starts_with(name, "en"@) {
        if name == "en0"@ {
            InterfaceKind::Ethernet
        } else {
            InterfaceKind::WiFi
        }
    } else if starts_with(name, "utun"@) || starts_with(name, "ipsec"@) || starts_with(name, "ppp"@) {
        InterfaceKind::VPN
    } else if starts_with(name, "lo"@) {
        InterfaceKind::Loopback
    } else {
        InterfaceKind::Other(name)
    }
}

/// Determine the interface type from a macOS interface name.
pub fn determine_macos_interface_type(name: &str) -> (res: InterfaceType)
    ensures
        res@ == macos_kind(name@),
{
    let n = chars_of(name);
    if begins_with(n.as_slice(), "en") {
        if crate::text::eq_str(n.as_slice(), "en0") {
            InterfaceType::Ethernet
        } else {
            InterfaceType::WiFi
        }
    } else if begins_with(n.as_slice(), "utun") || begins_with(n.as_slice(), "ipsec") || begins_with(
        n.as_slice(),
        "ppp",
    ) {
        InterfaceType::VPN
    } else if begins_with(n.as_slice(), "lo") {
        InterfaceType::Loopback
    } else {
        InterfaceType::Other(crate::text::owned(name))
    }
}

/// The kind of a macOS interface as the platform layer names it, which also
/// knows Apple's wireless, bridge and access-point interfaces.
pub open spec fn macos_platform_kind(name: Seq<char>) -> InterfaceKind {
    if starts_with(name, "en"@) {
        if name == "en0"@ {
            InterfaceKind::Ethernet
        } else {
            InterfaceKind::WiFi
        }
    } else if starts_with(name, "awdl"@) {
        InterfaceKind::WiFi
    } else if starts_with(name, "utun"@) || starts_with(name, "ipsec"@) || starts_with(name, "ppp"@) {
        InterfaceKind::VPN
    } else if starts_with(name, "lo"@) {
        InterfaceKind::Loopback
    } else if starts_with(name, "bridge"@) || starts_with(name, "anpi"@) {
        InterfaceKind::Other("Bridge/"@ + name)
    } else if starts_with(name, "ap"@) || starts_with(name, "llw"@) {
        InterfaceKind::WiFi
    } else {
        InterfaceKind::Other(name)
    }
}

/// Determine the interface type from a macOS interface name, as the
/// platform layer does.
pub fn determine_macos_platform_interface_type(name: &str) -> (res: InterfaceType)
    ensures
        res@ == macos_platform_kind(name@),
{
    let n = chars_of(name);
    let s = n.as_slice();
    if begins_with(s, "en") {
        if crate::text::eq_str(s, "en0") {
            InterfaceType::Ethernet
        } else {
            InterfaceType::WiFi
        }
    } else if begins_with(s, "awdl") {
        InterfaceType::WiFi
    } else if begins_with(s, "utun") || begins_with(s, "ipsec") || begins_with(s, "ppp") {
        InterfaceType::VPN
    } else if begins_with(s, "lo") {
        InterfaceType::Loopback
    } else if begins_with(s, "bridge") || begins_with(s, "anpi") {
        InterfaceType::Other(concat2("Bridge/", name))
    } else if begins_with(s, "ap") || begins_with(s, "llw") {
        InterfaceType::WiFi
    } else {
        InterfaceType::Other(crate::text::owned(name))
    }
}

// ---------------------------------------------------------------------------
// `ifconfig`, as the network manager reads it
// ---------------------------------------------------------------------------

/// The address of an `inet` line: its second word.
pub open spec fn second_word_address(line: Seq<char>) -> Option<IpAddress> {
    let ws = words(line);
    if ws.len() >= 2 {
        parse_ip(ws[1])
    } else {
        None
    }
}

/// The state of the `ifconfig` reader.
pub struct IfconfigState {
    pub name: Option<Seq<char>>,
    pub ip: Option<IpAddress>,
    pub up: bool,
    pub multicast: bool,
    pub active: bool,
    pub found: Seq<InterfaceView>,
}

/// The interfaces found once the current one is complete (kept when named,
/// addressed and not a loopback one).
pub open spec fn ifconfig_flush(st: IfconfigState) -> Seq<InterfaceView> {
    match (st.name, st.ip) {
        (Some(n), Some(ip)) => if !starts_with(n, "lo"@) {
            st.found.push(
                InterfaceView {
                    name: n,
                    ip_address: ip,
                    is_loopback: false,
                    is_up: st.up,
                    supports_multicast: st.multicast,
                    kind: macos_kind(n),
                },
            )
        } else {
            st.found
        },
        _ => st.found,
    }
}

/// The reader's state after one line: a line with a colon starts an
/// interface (its flags on the same line), an `inet` line gives its
/// address, `status: active` marks it up.
pub open spec fn ifconfig_step(st: IfconfigState, raw: Seq<char>) -> IfconfigState {
    let line = trim(raw);
    let st1 = if contains(line, ":"@) {
        IfconfigState {
            name: Some(split(line, ':')[0]),
            ip: None,
            up: contains(line, "UP"@),
            multicast: contains(line, "MULTICAST"@),
            active: false,
            found: ifconfig_flush(st),
        }
    } else {
        st
    };
    let st2 = if contains(line, "inet "@) && !contains(line, "inet6"@) {
        match second_word_address(line) {
            Some(ip) => IfconfigState { ip: Some(ip), ..st1 },
            None => st1,
        }
    } else {
        st1
    };
    if contains(line, "status: active"@) {
        IfconfigState { up: true, ..st2 }
    } else {
        st2
    }
}

/// The reader's state before any line.
pub open spec fn ifconfig_start() -> IfconfigState {
    IfconfigState { name: None, ip: None, up: false, multicast: false, active: false, found: Seq::empty() }
}

/// The reader's state after the given lines.
pub open spec fn ifconfig_fold(ls: Seq<Seq<char>>) -> IfconfigState
    decreases ls.len(),
{
    if ls.len() == 0 {
        ifconfig_start()
    } else {
        ifconfig_step(ifconfig_fold(ls.drop_last()), ls.last())
    }
}

/// The interfaces an `ifconfig` listing shows, loopback ones and those
/// without an IPv4 address left out.
pub open spec fn ifconfig_interfaces(output: Seq<char>) -> Seq<InterfaceView> {
    ifconfig_flush(ifconfig_fold(lines(output)))
}

/// The address of an `inet` line, if its second word is one.
fn second_word_address_of(line: &[char]) -> (res: Option<IpAddress>)
    ensures
        res == second_word_address(line@),
{
    let ws = split_words(line);
    if ws.len() >= 2 {
        proof {
            assert(views(ws@)[1] == ws@[1]@);
        }
        parse_ip_address(ws[1].as_slice())
    } else {
        None
    }
}

fn push_found(
    found: &mut Vec<NetworkInterface>,
    name: &Vec<char>,
    ip: IpAddress,
    up: bool,
    multicast: bool,
    kind_platform: bool,
)
    ensures
        interface_views(final(found)@) == interface_views(old(found)@).push(
            InterfaceView {
                name: name@,
                ip_address: ip,
                is_loopback: false,
                is_up: up,
                supports_multicast: multicast,
                kind: if kind_platform {
                    macos_platform_kind(name@)
                } else {
                    macos_kind(name@)
                },
            },
        ),
{
    let s = string_of(name.as_slice());
    let t = if kind_platform {
        determine_macos_platform_interface_type(s.as_str())
    } else {
        determine_macos_interface_type(s.as_str())
    };
    let iface = NetworkInterface {
        name: s,
        ip_address: ip,
        is_loopback: false,
        is_up: up,
        supports_multicast: multicast,
        interface_type: t,
    };
    let ghost before = found@;
    found.push(iface);
    proof {
        assert(interface_views(found@) =~= interface_views(before).push(iface@));
    }
}

/// Parse `ifconfig` output into network interfaces.
pub fn parse_ifconfig_output(output: &str) -> (res: Vec<NetworkInterface>)
    ensures
        interface_views(res@) == ifconfig_interfaces(output@),
{
    let ls = split_lines(chars_of(output).as_slice());
    let mut found: Vec<NetworkInterface> = Vec::new();
    let mut name: Option<Vec<char>> = None;
    let mut ip: Option<IpAddress> = None;
    let mut up = false;
    let mut multicast = false;
    let mut active = false;
    let mut i: usize = 0;
    while i < ls.len()
        invariant
            i <= ls.len(),
            views(ls@) == lines(output@),
            ({
                let st = ifconfig_fold(views(ls@).subrange(0, i as int));
                &&& st.name == match name {
                    Some(n) => Some(n@),
                    None => None::<Seq<char>>,
                }
                &&& st.ip == ip
                &&& st.up == up
                &&& st.multicast == multicast
                &&& st.active == active
                &&& st.found == interface_views(found@)
            }),
        decreases ls.len() - i,
    {
        proof {
            assert(views(ls@).subrange(0, i + 1).drop_last() =~= views(ls@).subrange(0, i as int));
            assert(views(ls@)[i as int] == ls@[i as int]@);
        }
        let line = trimmed(ls[i].as_slice());
        if holds(line.as_slice(), ":") {
            match (&name, ip) {
                (Some(n), Some(a)) => {
                    if !begins_with(n.as_slice(), "lo") {
                        push_found(&mut found, n, a, up, multicast, false);
                    }
                },
                _ => {},
            }
            let pieces = split_on(line.as_slice(), ':');
            proof {
                assert(split(line@, ':').len() > 0);
                assert(views(pieces@)[0] == pieces@[0]@);
            }
            name = Some(pieces[0].clone());
            proof {
                assert(pieces@[0]@ == pieces[0]@);
            }
            ip = None;
            up = holds(line.as_slice(), "UP");
            multicast = holds(line.as_slice(), "MULTICAST");
            active = false;
        }
        if holds(line.as_slice(), "inet ") && !holds(line.as_slice(), "inet6") {
            match second_word_address_of(line.as_slice()) {
                Some(a) => {
                    ip = Some(a);
                },
                None => {},
            }
        }
        if holds(line.as_slice(), "status: active") {
            up = true;
        }
        i = i + 1;
    }
    proof {
        assert(views(ls@).subrange(0, ls@.len() as int) =~= views(ls@));
    }
    match (&name, ip) {
        (Some(n), Some(a)) => {
            if !begins_with(n.as_slice(), "lo") {
                push_found(&mut found, n, a, up, multicast, false);
            }
        },
        _ => {},
    }
    found
}

// ---------------------------------------------------------------------------
// `ifconfig`, as the platform layer reads it
// ---------------------------------------------------------------------------

/// Whether an interface counts as up: its flags say so and its status is
/// active, or it is a virtual interface that reports no status.
pub open spec fn platform_up(name: Seq<char>, up: bool, active: bool) -> bool {
    up && (active || starts_with(name, "awdl"@) || starts_with(name, "utun"@))
}

/// The interfaces found once the current one is complete.
pub open spec fn listing_flush(st: IfconfigState) -> Seq<InterfaceView> {
    match (st.name, st.ip) {
        (Some(n), Some(ip)) => if !starts_with(n, "lo"@) {
            st.found.push(
                InterfaceView {
                    name: n,
                    ip_address: ip,
                    is_loopback: false,
                    is_up: platform_up(n, st.up, st.active),
                    supports_multicast: st.multicast,
                    kind: macos_platform_kind(n),
                },
            )
        } else {
            st.found
        },
        _ => st.found,
    }
}

/// Whether a raw line starts an interface: unindented, with a colon and a
/// `flags=` field.
pub open spec fn listing_header(raw: Seq<char>) -> bool {
    !starts_with(raw, "\t"@) && !starts_with(raw, " "@) && contains(raw, ":"@) && contains(raw, "flags="@)
}

/// The reader's state after one raw line.
pub open spec fn listing_step(st: IfconfigState, raw: Seq<char>) -> IfconfigState {
    let st1 = if listing_header(raw) {
        IfconfigState {
            name: Some(split(raw, ':')[0]),
            ip: None,
            up: contains(raw, "<UP"@),
            multicast: contains(raw, "MULTICAST"@),
            active: false,
            found: listing_flush(st),
        }
    } else {
        st
    };
    let line = trim(raw);
    let st2 = if starts_with(line, "inet "@) && !contains(raw, "inet6"@) {
        match second_word_address(line) {
            Some(ip) => IfconfigState { ip: Some(ip), ..st1 },
            None => st1,
        }
    } else {
        st1
    };
    if starts_with(line, "status: active"@) {
        IfconfigState { active: true, ..st2 }
    } else {
        st2
    }
}

/// The reader's state after the given lines.
pub open spec fn listing_fold(ls: Seq<Seq<char>>) -> IfconfigState
    decreases ls.len(),
{
    if ls.len() == 0 {
        ifconfig_start()
    } else {
        listing_step(listing_fold(ls.drop_last()), ls.last())
    }
}

/// The interfaces of an `ifconfig` listing as the platform layer reads it.
pub open spec fn listing_interfaces(output: Seq<char>) -> Seq<InterfaceView> {
    listing_flush(listing_fold(lines(output)))
}

/// Parse an `ifconfig` listing into network interfaces, as the platform
/// layer does: an interface line is unindented and has `flags=`; an
/// interface is up when flagged up and active (or a virtual one).
pub fn parse_ifconfig_listing(output: &str) -> (res: Vec<NetworkInterface>)
    ensures
        interface_views(res@) == listing_interfaces(output@),
{
    let ls = split_lines(chars_of(output).as_slice());
    let mut found: Vec<NetworkInterface> = Vec::new();
    let mut name: Option<Vec<char>> = None;
    let mut ip: Option<IpAddress> = None;
    let mut up = false;
    let mut multicast = false;
    let mut active = false;
    let mut i: usize = 0;
    while i < ls.len()
        invariant
            i <= ls.len(),
            views(ls@) == lines(output@),
            ({
                let st = listing_fold(views(ls@).subrange(0, i as int));
                &&& st.name == match name {
                    Some(n) => Some(n@),
                    None => None::<Seq<char>>,
                }
                &&& st.ip == ip
                &&& st.up == up
                &&& st.multicast == multicast
                &&& st.active == active
                &&& st.found == interface_views(found@)
            }),
        decreases ls.len() - i,
    {
        proof {
            assert(views(ls@).subrange(0, i + 1).drop_last() =~= views(ls@).subrange(0, i as int));
            assert(views(ls@)[i as int] == ls@[i as int]@);
        }
        let raw = &ls[i];
        if !begins_with(raw.as_slice(), "\t") && !begins_with(raw.as_slice(), " ") && holds(raw.as_slice(), ":")
            && holds(raw.as_slice(), "flags=") {
            match (&name, ip) {
                (Some(n), Some(a)) => {
                    if !begins_with(n.as_slice(), "lo") {
                        let is_up = up && (active || begins_with(n.as_slice(), "awdl") || begins_with(
                            n.as_slice(),
                            "utun",
                        ));
                        push_found(&mut found, n, a, is_up, multicast, true);
                    }
                },
                _ => {},
            }
            let pieces = split_on(raw.as_slice(), ':');
            proof {
                assert(split(raw@, ':').len() > 0);
                assert(views(pieces@)[0] == pieces@[0]@);
            }
            name = Some(pieces[0].clone());
            ip = None;
            up = holds(raw.as_slice(), "<UP");
            multicast = holds(raw.as_slice(), "MULTICAST");
            active = false;
        }
        let line = trimmed(raw.as_slice());
        if begins_with(line.as_slice(), "inet ") && !holds(raw.as_slice(), "inet6") {
            match second_word_address_of(line.as_slice()) {
                Some(a) => {
                    ip = Some(a);
                },
                None => {},
            }
        }
        if begins_with(line.as_slice(), "status: active") {
            active = true;
        }
        i = i + 1;
    }
    proof {
        assert(views(ls@).subrange(0, ls@.len() as int) =~= views(ls@));
    }
    match (&name, ip) {
        (Some(n), Some(a)) => {
            if !begins_with(n.as_slice(), "lo") {
                let is_up = up && (active || begins_with(n.as_slice(), "awdl") || begins_with(n.as_slice(), "utun"));
                push_found(&mut found, n, a, is_up, multicast, true);
            }
        },
        _ => {},
    }
    found
}

// ---------------------------------------------------------------------------
// The interface preferred for multicast
// ---------------------------------------------------------------------------

/// The preference of an interface for multicast on macOS: the built-in
/// Ethernet port first, then other Ethernet, Wi-Fi, VPN, anything else.
pub open spec fn multicast_rank(v: InterfaceView) -> nat {
    match v.kind {
        InterfaceKind::Ethernet => if v.name == "en0"@ {
            0
        } else {
            1
        },
        InterfaceKind::WiFi => 2,
        InterfaceKind::VPN => 3,
        _ => 4,
    }
}

/// Position `i` holds the preferred interface: suitable, of least rank, the
/// first such.
pub open spec fn is_preferred_at(s: Seq<InterfaceView>, i: int) -> bool {
    &&& 0 <= i < s.len()
    &&& s[i].suitable()
    &&& forall|j: int| 0 <= j < s.len() && s[j].suitable() ==> multicast_rank(s[i]) <= multicast_rank(s[j])
    &&& forall|j: int| 0 <= j < i && s[j].suitable() ==> multicast_rank(s[i]) < multicast_rank(s[j])
}

fn rank_of(iface: &NetworkInterface) -> (res: u8)
    ensures
        res as nat == multicast_rank(iface@),
{
    match &iface.interface_type {
        InterfaceType::Ethernet => {
            if crate::text::eq_str(chars_of(iface.name.as_str()).as_slice(), "en0") {
                0
            } else {
                1
            }
        },
        InterfaceType::WiFi => 2,
        InterfaceType::VPN => 3,
        _ => 4,
    }
}

/// The interface preferred for multicast: among those up, not loopback and
/// multicast capable, the first of the most preferred kind.
pub fn select_multicast_interface(interfaces: &Vec<NetworkInterface>) -> (res: Option<&NetworkInterface>)
    ensures
        res is None <==> !crate::platform::any_suitable(interface_views(interfaces@)),
        res matches Some(r) ==> exists|i: int|
            is_preferred_at(interface_views(interfaces@), i) && *r == interfaces@[i],
{
    let ghost s = interface_views(interfaces@);
    let mut best: Option<usize> = None;
    let mut i: usize = 0;
    while i < interfaces.len()
        invariant
            i <= interfaces.len(),
            s == interface_views(interfaces@),
            best is None ==> forall|j: int| 0 <= j < i ==> !(#[trigger] s[j]).suitable(),
            best matches Some(b) ==> {
                &&& b < i
                &&& s[b as int].suitable()
                &&& forall|j: int|
                    0 <= j < i && (#[trigger] s[j]).suitable() ==> multicast_rank(s[b as int]) <= multicast_rank(s[j])
                &&& forall|j: int|
                    0 <= j < b && (#[trigger] s[j]).suitable() ==> multicast_rank(s[b as int]) < multicast_rank(s[j])
            },
        decreases interfaces.len() - i,
    {
        assert(s[i as int] == interfaces@[i as int]@);
        if interfaces[i].is_suitable() {
            match best {
                None => {
                    best = Some(i);
                },
                Some(b) => {
                    assert(s[b as int] == interfaces@[b as int]@);
                    if rank_of(&interfaces[i]) < rank_of(&interfaces[b]) {
                        best = Some(i);
                    }
                },
            }
        }
        i = i + 1;
    }
    match best {
        Some(b) => Some(&interfaces[b]),
        None => None,
    }
}

/// The name of the interface macOS usually routes multicast through: `en0`,
/// the primary built-in interface.
pub fn get_preferred_multicast_interface() -> (res: Option<String>)
    ensures
        res matches Some(n) && n@ == "en0"@,
{
    Some(crate::text::owned("en0"))
}

} // verus!
