//! Windows network facts: interface kinds by adapter name and by interface
//! type number, the interface list of `ipconfig`, and the interfaces the
//! adapter table yields.
use vstd::prelude::*;
use crate::ip::{parse_ip, parse_ip_address, IpAddress};
use crate::linux_net::holds;
use crate::platform::{interface_views, InterfaceKind, InterfaceType, InterfaceView, NetworkInterface};
use crate::platform_error::PlatformError;
use crate::text::{
    chars_of, contains, decimal, ends_with, lines, lowercase_of, owned, push_decimal, split,
    split_lines, split_on, starts_with, string_of, trim, trimmed, views,
};

verus! {

/// The kind of a Windows adapter, by words in its name (in lower case).
pub open spec fn windows_name_kind(name: Seq<char>) -> InterfaceKind {
    let l = lowercase_of(name);
    if contains(l, "ethernet"@) || contains(l, "local area connection"@) {
        InterfaceKind::Ethernet
    } else if contains(l, "wi-fi"@) || contains(l, "wireless"@) || contains(l, "wlan"@) {
        InterfaceKind::WiFi
    } else if contains(l, "vpn"@) || contains(l, "tap"@) || contains(l, "tun"@) {
        InterfaceKind::VPN
    } else if contains(l, "loopback"@) {
        InterfaceKind::Loopback
    } else {
        InterfaceKind::Other(name)
    }
}

/// Determine the interface type from a Windows adapter name.
pub fn determine_windows_interface_type(name: &str) -> (res: InterfaceType)
    ensures
        res@ == windows_name_kind(name@),
{
    let l = crate::text::lower_chars(chars_of(name).as_slice());
    let s = l.as_slice();
    if holds(s, "ethernet") || holds(s, "local area connection") {
        InterfaceType::Ethernet
    } else if holds(s, "wi-fi") || holds(s, "wireless") || holds(s, "wlan") {
        InterfaceType::WiFi
    } else if holds(s, "vpn") || holds(s, "tap") || holds(s, "tun") {
        InterfaceType::VPN
    } else if holds(s, "loopback") {
        InterfaceType::Loopback
    } else {
        InterfaceType::Other(owned(name))
    }
}

/// The kind of a Windows interface type number: 6 Ethernet, 71 Wi-Fi, 24
/// software loopback, 131 tunnel and 23 PPP (VPN), any other by its number.
pub open spec fn if_type_kind(t: u32) -> InterfaceKind {
    if t == 6 {
        InterfaceKind::Ethernet
    } else if t == 71 {
        InterfaceKind::WiFi
    } else if t == 24 {
        InterfaceKind::Loopback
    } else if t == 131 || t == 23 {
        InterfaceKind::VPN
    } else {
        InterfaceKind::Other("ifType "@ + decimal(t as nat))
    }
}

/// Map a Windows interface type number to an interface type.
pub fn map_windows_if_type(if_type: u32) -> (res: InterfaceType)
    ensures
        res@ == if_type_kind(if_type),
{
    if if_type == 6 {
        InterfaceType::Ethernet
    } else if if_type == 71 {
        InterfaceType::WiFi
    } else if if_type == 24 {
        InterfaceType::Loopback
    } else if if_type == 131 || if_type == 23 {
        InterfaceType::VPN
    } else {
        let mut s = owned("ifType ");
        push_decimal(&mut s, if_type as u64);
        InterfaceType::Other(s)
    }
}

// ---------------------------------------------------------------------------
// `ipconfig`
// ---------------------------------------------------------------------------

/// `s` without every trailing copy of `p`.
pub open spec fn strip_suffixes(s: Seq<char>, p: Seq<char>) -> Seq<char>
    decreases s.len(),
{
    if p.len() > 0 && ends_with(s, p) {
        strip_suffixes(s.subrange(0, s.len() - p.len()), p)
    } else {
        s
    }
}

/// The state of the `ipconfig` reader.
pub struct IpconfigState {
    pub name: Option<Seq<char>>,
    pub ip: Option<IpAddress>,
    pub up: bool,
    pub found: Seq<InterfaceView>,
}

/// The interfaces found once an adapter section ends (kept when it has an
/// address).
pub open spec fn ipconfig_flush(st: IpconfigState) -> Seq<InterfaceView> {
    match (st.name, st.ip) {
        (Some(n), Some(ip)) => st.found.push(
            InterfaceView {
                name: n,
                ip_address: ip,
                is_loopback: contains(n, "Loopback"@),
                is_up: st.up,
                supports_multicast: !contains(n, "Loopback"@),
                kind: windows_name_kind(n),
            },
        ),
        _ => st.found,
    }
}

/// The address on an address line: the text after its first colon, trimmed
/// and without the `(Preferred)` mark.
pub open spec fn ipconfig_address(line: Seq<char>) -> Option<IpAddress> {
    let parts = split(line, ':');
    if parts.len() >= 2 {
        parse_ip(strip_suffixes(trim(parts[1]), "(Preferred)"@))
    } else {
        None
    }
}

/// The reader's state after one line: a line that is not indented and ends
/// in a colon starts an adapter section; an address line gives its address and marks it up; a
/// disconnected media state marks it down.
pub open spec fn ipconfig_step(st: IpconfigState, raw: Seq<char>) -> IpconfigState {
    let line = trim(raw);
    let st1 = if ends_with(line, ":"@) && !starts_with(raw, " "@) {
        IpconfigState { name: Some(strip_suffixes(line, ":"@)), ip: None, up: false, found: ipconfig_flush(st) }
    } else {
        st
    };
    let st2 = if contains(line, "IPv4 Address"@) || contains(line, "IP Address"@) {
        match ipconfig_address(line) {
            Some(ip) => IpconfigState { ip: Some(ip), up: true, ..st1 },
            None => st1,
        }
    } else {
        st1
    };
    if contains(line, "Media State"@) && contains(line, "disconnected"@) {
        IpconfigState { up: false, ..st2 }
    } else {
        st2
    }
}

/// The reader's state after the given lines.
pub open spec fn ipconfig_fold(ls: Seq<Seq<char>>) -> IpconfigState
    decreases ls.len(),
{
    if ls.len() == 0 {
        IpconfigState { name: None, ip: None, up: false, found: Seq::empty() }
    } else {
        ipconfig_step(ipconfig_fold(ls.drop_last()), ls.last())
    }
}

/// The interfaces an `ipconfig` listing shows; the last adapter is taken as
/// a multicast-capable non-loopback one.
pub open spec fn ipconfig_interfaces(output: Seq<char>) -> Seq<InterfaceView> {
    let st = ipconfig_fold(lines(output));
    match (st.name, st.ip) {
        (Some(n), Some(ip)) => st.found.push(
            InterfaceView {
                name: n,
                ip_address: ip,
                is_loopback: false,
                is_up: st.up,
                supports_multicast: true,
                kind: windows_name_kind(n),
            },
        ),
        _ => st.found,
    }
}

/// `s` without every trailing copy of `p`.
fn strip_suffixes_of(s: &[char], p: &str) -> (res: Vec<char>)
    ensures
        res@ == strip_suffixes(s@, p@),
{
    let pc = chars_of(p);
    let mut end = s.len();
    proof {
        assert(s@.subrange(0, end as int) =~= s@);
    }
    loop
        invariant
            end <= s.len(),
            pc@ == p@,
            strip_suffixes(s@, p@) == strip_suffixes(s@.subrange(0, end as int), p@),
        decreases end,
    {
        let cur = crate::text::slice_chars(s, 0, end);
        if pc.len() > 0 && crate::text::has_suffix(cur.as_slice(), pc.as_slice()) {
            proof {
                assert(cur@.subrange(0, cur@.len() - pc@.len()) =~= s@.subrange(0, end - pc@.len()));
            }
            end = end - pc.len();
        } else {
            return cur;
        }
    }
}

fn push_adapter(
    found: &mut Vec<NetworkInterface>,
    name: &Vec<char>,
    ip: IpAddress,
    up: bool,
    last: bool,
)
    ensures
        interface_views(final(found)@) == interface_views(old(found)@).push(
            InterfaceView {
                name: name@,
                ip_address: ip,
                is_loopback: if last {
                    false
                } else {
                    contains(name@, "Loopback"@)
                },
                is_up: up,
                supports_multicast: if last {
                    true
                } else {
                    !contains(name@, "Loopback"@)
                },
                kind: windows_name_kind(name@),
            },
        ),
{
    let s = string_of(name.as_slice());
    let t = determine_windows_interface_type(s.as_str());
    let lo = holds(name.as_slice(), "Loopback");
    let iface = NetworkInterface {
        name: s,
        ip_address: ip,
        is_loopback: if last { false } else { lo },
        is_up: up,
        supports_multicast: if last { true } else { !lo },
        interface_type: t,
    };
    let ghost before = found@;
    found.push(iface);
    proof {
        assert(interface_views(found@) =~= interface_views(before).push(iface@));
    }
}

/// Parse `ipconfig` output into network interfaces.
pub fn parse_ipconfig_output(output: &str) -> (res: Vec<NetworkInterface>)
    ensures
        interface_views(res@) == ipconfig_interfaces(output@),
{
    let ls = split_lines(chars_of(output).as_slice());
    let mut found: Vec<NetworkInterface> = Vec::new();
    let mut name: Option<Vec<char>> = None;
    let mut ip: Option<IpAddress> = None;
    let mut up = false;
    let mut i: usize = 0;
    while i < ls.len()
        invariant
            i <= ls.len(),
            views(ls@) == lines(output@),
            ({
                let st = ipconfig_fold(views(ls@).subrange(0, i as int));
                &&& st.name == match name {
                    Some(n) => Some(n@),
                    None => None::<Seq<char>>,
                }
                &&& st.ip == ip
                &&& st.up == up
                &&& st.found == interface_views(found@)
            }),
        decreases ls.len() - i,
    {
        proof {
            assert(views(ls@).subrange(0, i + 1).drop_last() =~= views(ls@).subrange(0, i as int));
            assert(views(ls@)[i as int] == ls@[i as int]@);
        }
        let line = trimmed(ls[i].as_slice());
        let colon: Vec<char> = vec![':'];
        let space: Vec<char> = vec![' '];
        proof {
            reveal_strlit(":");
            reveal_strlit(" ");
            assert(colon@ =~= ":"@);
            assert(space@ =~= " "@);
        }
        if crate::text::has_suffix(line.as_slice(), colon.as_slice()) && !crate::text::has_prefix(
            ls[i].as_slice(),
            space.as_slice(),
        ) {
            match (&name, ip) {
                (Some(n), Some(a)) => {
                    push_adapter(&mut found, n, a, up, false);
                },
                _ => {},
            }
            name = Some(strip_suffixes_of(line.as_slice(), ":"));
            ip = None;
            up = false;
        }
        if holds(line.as_slice(), "IPv4 Address") || holds(line.as_slice(), "IP Address") {
            let parts = split_on(line.as_slice(), ':');
            if parts.len() >= 2 {
                proof {
                    assert(views(parts@)[1] == parts@[1]@);
                }
                let t = trimmed(parts[1].as_slice());
                let a = strip_suffixes_of(t.as_slice(), "(Preferred)");
                match parse_ip_address(a.as_slice()) {
                    Some(v) => {
                        ip = Some(v);
                        up = true;
                    },
                    None => {},
                }
            }
        }
        if holds(line.as_slice(), "Media State") && holds(line.as_slice(), "disconnected") {
            up = false;
        }
        i = i + 1;
    }
    proof {
        assert(views(ls@).subrange(0, ls@.len() as int) =~= views(ls@));
    }
    match (&name, ip) {
        (Some(n), Some(a)) => {
            push_adapter(&mut found, n, a, up, true);
        },
        _ => {},
    }
    found
}

// ---------------------------------------------------------------------------
// The adapter table
// ---------------------------------------------------------------------------

/// One network adapter as the system's adapter table describes it.
#[derive(Debug, Clone)]
pub struct AdapterRecord {
    /// The interface type number.
    pub if_type: u32,
    /// Whether its operational status is up.
    pub oper_up: bool,
    pub adapter_name: Option<String>,
    pub friendly_name: Option<String>,
    /// Its IPv4 addresses, in order.
    pub ipv4_addresses: Vec<(u8, u8, u8, u8)>,
}

/// An automatic private address (169.254.x.x).
pub open spec fn link_local(a: (u8, u8, u8, u8)) -> bool {
    a.0 == 169 && a.1 == 254
}

/// The name shown for an adapter: its friendly name, else its adapter name,
/// else `Unknown`.
pub open spec fn adapter_label(r: AdapterRecord) -> Seq<char> {
    match r.friendly_name {
        Some(f) => f@,
        None => match r.adapter_name {
            Some(a) => a@,
            None => "Unknown"@,
        },
    }
}

/// The position of the first address that is not link-local.
pub open spec fn first_routable(s: Seq<(u8, u8, u8, u8)>, i: int) -> Option<int>
    decreases s.len() - i,
{
    if i < 0 || i >= s.len() {
        None
    } else if !link_local(s[i]) {
        Some(i)
    } else {
        first_routable(s, i + 1)
    }
}

/// The interface an adapter yields, if any: adapters that are loopback or
/// not up yield none; else its first address that is not link-local.
pub open spec fn adapter_interface(r: AdapterRecord) -> Option<InterfaceView> {
    if r.if_type == 24 || !r.oper_up {
        None
    } else {
        match first_routable(r.ipv4_addresses@, 0) {
            Some(k) => {
                let a = r.ipv4_addresses@[k];
                let lo = if_type_kind(r.if_type) == InterfaceKind::Loopback;
                Some(
                    InterfaceView {
                        name: adapter_label(r),
                        ip_address: IpAddress::V4(a.0, a.1, a.2, a.3),
                        is_loopback: lo,
                        is_up: true,
                        supports_multicast: !lo,
                        kind: if_type_kind(r.if_type),
                    },
                )
            },
            None => None,
        }
    }
}

/// The interfaces the first `n` adapters yield.
pub open spec fn adapter_interfaces(rs: Seq<AdapterRecord>, n: nat) -> Seq<InterfaceView>
    decreases n,
{
    if n == 0 {
        Seq::empty()
    } else {
        adapter_interfaces(rs, (n - 1) as nat) + match adapter_interface(rs[n - 1]) {
            Some(v) => seq![v],
            None => Seq::empty(),
        }
    }
}

fn adapter_interface_of(r: &AdapterRecord) -> (res: Option<NetworkInterface>)
    ensures
        match res {
            Some(i) => adapter_interface(*r) == Some(i@),
            None => adapter_interface(*r) is None,
        },
{
    if r.if_type == 24 || !r.oper_up {
        return None;
    }
    let mut k: usize = 0;
    while k < r.ipv4_addresses.len()
        invariant
            k <= r.ipv4_addresses.len(),
            r.if_type != 24 && r.oper_up,
            first_routable(r.ipv4_addresses@, 0) == first_routable(r.ipv4_addresses@, k as int),
        decreases r.ipv4_addresses.len() - k,
    {
        let a = r.ipv4_addresses[k];
        if !(a.0 == 169 && a.1 == 254) {
            let name = match &r.friendly_name {
                Some(f) => f.clone(),
                None => match &r.adapter_name {
                    Some(n) => n.clone(),
                    None => owned("Unknown"),
                },
            };
            let t = map_windows_if_type(r.if_type);
            let lo = match t {
                InterfaceType::Loopback => true,
                _ => false,
            };
            return Some(NetworkInterface {
                name,
                ip_address: IpAddress::V4(a.0, a.1, a.2, a.3),
                is_loopback: lo,
                is_up: true,
                supports_multicast: !lo,
                interface_type: t,
            });
        }
        k = k + 1;
    }
    None
}

/// The active interfaces of the adapter table: one per adapter that is up,
/// not a loopback one, and has an address that is not link-local (the
/// first such); an error when there is none.
pub fn interfaces_from_adapters(adapters: &Vec<AdapterRecord>) -> (res: Result<Vec<NetworkInterface>, PlatformError>)
    ensures
        match res {
            Ok(v) => interface_views(v@) == adapter_interfaces(adapters@, adapters@.len()) && v@.len() > 0,
            Err(e) => adapter_interfaces(adapters@, adapters@.len()).len() == 0
                && (e matches PlatformError::DetectionFailed(m)
                && m@ == "No active network interfaces with IPv4 addresses found"@),
        },
{
    let mut out: Vec<NetworkInterface> = Vec::new();
    let mut i: usize = 0;
    while i < adapters.len()
        invariant
            i <= adapters.len(),
            interface_views(out@) == adapter_interfaces(adapters@, i as nat),
        decreases adapters.len() - i,
    {
        match adapter_interface_of(&adapters[i]) {
            Some(iface) => {
                let ghost before = out@;
                out.push(iface);
                proof {
                    assert(interface_views(out@) =~= interface_views(before).push(iface@));
                }
            },
            None => {},
        }
        proof {
            assert(interface_views(out@) =~= adapter_interfaces(adapters@, (i + 1) as nat));
        }
        i = i + 1;
    }
    if out.len() == 0 {
        return Err(PlatformError::DetectionFailed(owned("No active network interfaces with IPv4 addresses found")));
    }
    Ok(out)
}

/// Whether the Windows firewall is active: it is taken to be, as on a
/// default installation.
pub fn get_firewall_status() -> (res: Result<bool, PlatformError>)
    ensures
        res matches Ok(true),
{
    Ok(true)
}

} // verus!
