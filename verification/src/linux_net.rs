//! Linux network facts read from command output: interface kinds by name,
//! the interface list of `ip addr show`, the names of `/proc/net/dev`.
use vstd::prelude::*;
use crate::ip::{parse_ip, parse_ip_address, IpAddress};
use crate::platform::{InterfaceKind, InterfaceType, InterfaceView, NetworkInterface};
use crate::text::{
    all_digits, chars_of, contains, find, find_char, find_char_after, find_first_char,
    has_prefix, has_substring, is_digit, lines, slice_chars, split, split_lines, split_on,
    split_words, starts_with, string_of, trim, trimmed, views, words,
};

verus! {

/// The kind of a Linux interface, by the prefix of its name.
pub open spec fn linux_kind(name: Seq<char>) -> InterfaceKind {
    if starts_with(name, "eth"@) || starts_with(name, "enp"@) || starts_with(name, "eno"@) {
        InterfaceKind::Ethernet
    } else if starts_with(name, "wlan"@) || starts_with(name, "wlp"@) || starts_with(name, "wlo"@) {
        InterfaceKind::WiFi
    } else if starts_with(name, "tun"@) || starts_with(name, "tap"@) || starts_with(name, "vpn"@) {
        InterfaceKind::VPN
    } else if starts_with(name, "lo"@) {
        InterfaceKind::Loopback
    } else {
        InterfaceKind::Other(name)
    }
}

/// Whether `s` begins with the string slice `p`.
pub fn begins_with(s: &[char], p: &str) -> (res: bool)
    ensures
        res == starts_with(s@, p@),
{
    let pc = chars_of(p);
    has_prefix(s, pc.as_slice())
}

/// Whether `s` contains the string slice `p`.
pub fn holds(s: &[char], p: &str) -> (res: bool)
    ensures
        res == contains(s@, p@),
{
    let pc = chars_of(p);
    has_substring(s, pc.as_slice())
}

/// Determine the interface type from a Linux interface name.
pub fn determine_linux_interface_type(name: &str) -> (res: InterfaceType)
    ensures
        res@ == linux_kind(name@),
{
    let n = chars_of(name);
    if begins_with(n.as_slice(), "eth") || begins_with(n.as_slice(), "enp") || begins_with(n.as_slice(), "eno") {
        InterfaceType::Ethernet
    } else if begins_with(n.as_slice(), "wlan") || begins_with(n.as_slice(), "wlp") || begins_with(
        n.as_slice(),
        "wlo",
    ) {
        InterfaceType::WiFi
    } else if begins_with(n.as_slice(), "tun") || begins_with(n.as_slice(), "tap") || begins_with(
        n.as_slice(),
        "vpn",
    ) {
        InterfaceType::VPN
    } else if begins_with(n.as_slice(), "lo") {
        InterfaceType::Loopback
    } else {
        InterfaceType::Other(crate::text::owned(name))
    }
}

// ---------------------------------------------------------------------------
// `ip addr show`
// ---------------------------------------------------------------------------

/// The colons of an interface line of `ip addr show` (`2: eth0: <...>`):
/// the first colon, preceded by the interface index, and the next one.
pub open spec fn header_colons(line: Seq<char>) -> Option<(int, int)> {
    match find_char(line, ':') {
        Some(c1) => if c1 > 0 && all_digits(line.subrange(0, c1)) {
            match find_char(line.subrange(c1 + 1, line.len() as int), ':') {
                Some(k) => Some((c1, c1 + 1 + k)),
                None => None,
            }
        } else {
            None
        },
        None => None,
    }
}

/// The address on an `inet` line: the first word after `inet `, without
/// any prefix length.
pub open spec fn inet_address(line: Seq<char>) -> Option<IpAddress> {
    match find(line, "inet "@) {
        Some(p) => {
            let ws = words(line.subrange(p + 5, line.len() as int));
            if ws.len() == 0 {
                None
            } else {
                parse_ip(split(ws[0], '/')[0])
            }
        },
        None => None,
    }
}

/// Whether a line carries an IPv4 `inet` address.
pub open spec fn inet_line(line: Seq<char>) -> bool {
    contains(line, "inet "@) && !contains(line, "inet6"@)
}

/// The state of the `ip addr show` reader.
pub struct IpAddrState {
    pub name: Option<Seq<char>>,
    pub ip: Option<IpAddress>,
    pub up: bool,
    pub multicast: bool,
    pub loopback: bool,
    pub found: Seq<InterfaceView>,
}

/// The interfaces found once the current one is complete: it is kept when
/// it has a name and an address and is not a loopback one.
pub open spec fn ip_addr_flush(st: IpAddrState) -> Seq<InterfaceView> {
    match (st.name, st.ip) {
        (Some(n), Some(ip)) => if !starts_with(n, "lo"@) {
            st.found.push(
                InterfaceView {
                    name: n,
                    ip_address: ip,
                    is_loopback: st.loopback,
                    is_up: st.up,
                    supports_multicast: st.multicast,
                    kind: linux_kind(n),
                },
            )
        } else {
            st.found
        },
        _ => st.found,
    }
}

/// The flags between `<` and `>` on a line, if it has both.
pub open spec fn flag_text(line: Seq<char>) -> Option<Seq<char>> {
    match (find_char(line, '<'), find_char(line, '>')) {
        (Some(a), Some(b)) => Some(line.subrange(a + 1, b)),
        _ => None,
    }
}

/// The reader's state after one line.
pub open spec fn ip_addr_step(st: IpAddrState, raw: Seq<char>) -> IpAddrState {
    let line = trim(raw);
    let st1 = match header_colons(line) {
        Some((c1, c2)) => {
            let name = trim(line.subrange(c1 + 1, c2));
            let (up, mc) = match flag_text(line) {
                Some(f) => (contains(f, "UP"@), contains(f, "MULTICAST"@)),
                None => (st.up, st.multicast),
            };
            IpAddrState {
                name: Some(name),
                ip: None,
                up,
                multicast: mc,
                loopback: starts_with(name, "lo"@),
                found: ip_addr_flush(st),
            }
        },
        None => st,
    };
    if inet_line(line) {
        match inet_address(line) {
            Some(ip) => IpAddrState { ip: Some(ip), ..st1 },
            None => st1,
        }
    } else {
        st1
    }
}

/// The reader's state before any line.
pub open spec fn ip_addr_start() -> IpAddrState {
    IpAddrState { name: None, ip: None, up: false, multicast: false, loopback: false, found: Seq::empty() }
}

/// The reader's state after the given lines.
pub open spec fn ip_addr_fold(ls: Seq<Seq<char>>) -> IpAddrState
    decreases ls.len(),
{
    if ls.len() == 0 {
        ip_addr_start()
    } else {
        ip_addr_step(ip_addr_fold(ls.drop_last()), ls.last())
    }
}

/// The interfaces `ip addr show` lists: each interface line starts an
/// interface (its index, a colon, its name, a colon, its flags), the
/// following `inet` line gives its address; loopback interfaces and those
/// without an address are left out.
pub open spec fn ip_addr_interfaces(output: Seq<char>) -> Seq<InterfaceView> {
    ip_addr_flush(ip_addr_fold(lines(output)))
}

/// Every interface line with both `<` and `>` has them in that order (the
/// reader takes the flags between them).
pub open spec fn flags_in_order(output: Seq<char>) -> bool {
    forall|i: int| 0 <= i < lines(output).len() ==> {
        let line = trim(#[trigger] lines(output)[i]);
        header_colons(line) is Some && find_char(line, '<') is Some && find_char(line, '>') is Some
            ==> find_char(line, '<').unwrap() < find_char(line, '>').unwrap()
    }
}

/// The positions of the two colons of an interface line, if it is one.
fn header_positions(line: &[char]) -> (res: Option<(usize, usize)>)
    ensures
        match res {
            Some((a, b)) => header_colons(line@) == Some((a as int, b as int)) && a < b < line.len(),
            None => header_colons(line@) is None,
        },
{
    match find_first_char(line, ':') {
        None => None,
        Some(c1) => {
            proof {
                crate::text::lemma_find_char(line@, ':');
            }
            if c1 == 0 {
                return None;
            }
            let mut i: usize = 0;
            while i < c1
                invariant
                    i <= c1 < line.len(),
                    c1 > 0,
                    find_char(line@, ':') == Some(c1 as int),
                    forall|j: int| 0 <= j < i ==> is_digit(#[trigger] line@.subrange(0, c1 as int)[j]),
                decreases c1 - i,
            {
                if !('0' <= line[i] && line[i] <= '9') {
                    proof {
                        assert(line@.subrange(0, c1 as int)[i as int] == line@[i as int]);
                        assert(!is_digit(line@.subrange(0, c1 as int)[i as int]));
                        assert(!all_digits(line@.subrange(0, c1 as int)));
                    }
                    return None;
                }
                i = i + 1;
            }
            match find_char_after(line, ':', c1 + 1) {
                None => None,
                Some(k) => {
                    proof {
                        crate::text::lemma_find_char(line@.subrange(c1 + 1, line@.len() as int), ':');
                    }
                    Some((c1, c1 + 1 + k))
                },
            }
        },
    }
}

/// The address on an `inet` line, if any.
fn inet_address_of(line: &[char]) -> (res: Option<IpAddress>)
    ensures
        res == inet_address(line@),
{
    let key = chars_of("inet ");
    match crate::text::find_seq(line, key.as_slice()) {
        None => None,
        Some(p) => {
            proof {
                reveal_strlit("inet ");
                crate::text::lemma_find(line@, "inet "@);
            }
            let n = line.len();
            assert(p + 5 <= n);
            let after = slice_chars(line, p + 5, n);
            let ws = split_words(after.as_slice());
            if ws.len() == 0 {
                return None;
            }
            proof {
                assert(views(ws@)[0] == ws@[0]@);
            }
            let pieces = split_on(ws[0].as_slice(), '/');
            proof {
                assert(split(ws@[0]@, '/').len() > 0);
                assert(views(pieces@)[0] == pieces@[0]@);
            }
            parse_ip_address(pieces[0].as_slice())
        },
    }
}

/// Whether every interface line of the output has its flags in order.
pub fn ip_addr_flags_in_order(output: &str) -> (res: bool)
    ensures
        res == flags_in_order(output@),
{
    let ls = split_lines(chars_of(output).as_slice());
    let mut i: usize = 0;
    while i < ls.len()
        invariant
            i <= ls.len(),
            views(ls@) == lines(output@),
            forall|j: int| 0 <= j < i ==> {
                let line = trim(#[trigger] lines(output@)[j]);
                header_colons(line) is Some && find_char(line, '<') is Some && find_char(line, '>') is Some
                    ==> find_char(line, '<').unwrap() < find_char(line, '>').unwrap()
            },
        decreases ls.len() - i,
    {
        proof {
            assert(views(ls@)[i as int] == ls@[i as int]@);
        }
        let line = trimmed(ls[i].as_slice());
        if header_positions(line.as_slice()).is_some() {
            match (find_first_char(line.as_slice(), '<'), find_first_char(line.as_slice(), '>')) {
                (Some(a), Some(b)) => {
                    if b < a {
                        return false;
                    }
                    if a == b {
                        proof {
                            crate::text::lemma_find_char(line@, '<');
                            crate::text::lemma_find_char(line@, '>');
                        }
                    }
                },
                _ => {},
            }
        }
        i = i + 1;
    }
    true
}

/// Parse the output of `ip addr show` into network interfaces.
pub fn parse_ip_addr_output(output: &str) -> (res: Vec<NetworkInterface>)
    requires
        flags_in_order(output@),
    ensures
        crate::platform::interface_views(res@) == ip_addr_interfaces(output@),
{
    let ls = split_lines(chars_of(output).as_slice());
    let mut found: Vec<NetworkInterface> = Vec::new();
    let mut name: Option<Vec<char>> = None;
    let mut ip: Option<IpAddress> = None;
    let mut up = false;
    let mut multicast = false;
    let mut loopback = false;
    let mut i: usize = 0;
    while i < ls.len()
        invariant
            i <= ls.len(),
            views(ls@) == lines(output@),
            flags_in_order(output@),
            ({
                let st = ip_addr_fold(views(ls@).subrange(0, i as int));
                &&& st.name == match name {
                    Some(n) => Some(n@),
                    None => None::<Seq<char>>,
                }
                &&& st.ip == ip
                &&& st.up == up
                &&& st.multicast == multicast
                &&& st.loopback == loopback
                &&& st.found == crate::platform::interface_views(found@)
            }),
        decreases ls.len() - i,
    {
        proof {
            assert(views(ls@).subrange(0, i + 1).drop_last() =~= views(ls@).subrange(0, i as int));
            assert(views(ls@)[i as int] == ls@[i as int]@);
        }
        let line = trimmed(ls[i].as_slice());
        match header_positions(line.as_slice()) {
            Some((c1, c2)) => {
                flush_current(&mut found, &name, ip, up, multicast, loopback);
                let raw_name = slice_chars(line.as_slice(), c1 + 1, c2);
                let n = trimmed(raw_name.as_slice());
                match (find_first_char(line.as_slice(), '<'), find_first_char(line.as_slice(), '>')) {
                    (Some(a), Some(b)) => {
                        proof {
                            assert(lines(output@)[i as int] == ls@[i as int]@);
                            crate::text::lemma_find_char(line@, '<');
                            crate::text::lemma_find_char(line@, '>');
                        }
                        let flags = slice_chars(line.as_slice(), a + 1, b);
                        up = holds(flags.as_slice(), "UP");
                        multicast = holds(flags.as_slice(), "MULTICAST");
                    },
                    _ => {},
                }
                loopback = begins_with(n.as_slice(), "lo");
                name = Some(n);
                ip = None;
            },
            None => {},
        }
        if holds(line.as_slice(), "inet ") && !holds(line.as_slice(), "inet6") {
            match inet_address_of(line.as_slice()) {
                Some(a) => {
                    ip = Some(a);
                },
                None => {},
            }
        }
        i = i + 1;
    }
    proof {
        assert(views(ls@).subrange(0, ls@.len() as int) =~= views(ls@));
    }
    flush_current(&mut found, &name, ip, up, multicast, loopback);
    found
}

/// Appends the current interface of the reader when it is complete and not
/// a loopback one.
fn flush_current(
    found: &mut Vec<NetworkInterface>,
    name: &Option<Vec<char>>,
    ip: Option<IpAddress>,
    up: bool,
    multicast: bool,
    loopback: bool,
)
    ensures
        crate::platform::interface_views(final(found)@) == ip_addr_flush(
            IpAddrState {
                name: match *name {
                    Some(n) => Some(n@),
                    None => None::<Seq<char>>,
                },
                ip,
                up,
                multicast,
                loopback,
                found: crate::platform::interface_views(old(found)@),
            },
        ),
{
    match (name, ip) {
        (Some(n), Some(a)) => {
            if !begins_with(n.as_slice(), "lo") {
                let s = string_of(n.as_slice());
                let t = determine_linux_interface_type(s.as_str());
                let iface = NetworkInterface {
                    name: s,
                    ip_address: a,
                    is_loopback: loopback,
                    is_up: up,
                    supports_multicast: multicast,
                    interface_type: t,
                };
                let ghost before = found@;
                found.push(iface);
                proof {
                    assert(crate::platform::interface_views(found@) =~= crate::platform::interface_views(before).push(
                        iface@,
                    ));
                }
            }
        },
        _ => {},
    }
}

// ---------------------------------------------------------------------------
// `/proc/net/dev`
// ---------------------------------------------------------------------------

/// The interface names `/proc/net/dev` lists, loopback ones left out: the
/// text before the colon of each line after the two header lines, trimmed.
pub open spec fn proc_net_dev_names(contents: Seq<char>) -> Seq<Seq<char>> {
    names_upto(lines(contents), lines(contents).len())
}

/// The interface name of one line of `/proc/net/dev`.
pub open spec fn dev_name(line: Seq<char>) -> Seq<char> {
    trim(split(line, ':')[0])
}

/// The names of the lines from the third up to position `n`.
pub open spec fn names_upto(ls: Seq<Seq<char>>, n: nat) -> Seq<Seq<char>>
    decreases n,
{
    if n <= 2 {
        Seq::empty()
    } else {
        let k = (n - 1) as int;
        names_upto(ls, (n - 1) as nat) + if starts_with(dev_name(ls[k]), "lo"@) {
            Seq::<Seq<char>>::empty()
        } else {
            seq![dev_name(ls[k])]
        }
    }
}

/// The interface names `/proc/net/dev` lists, loopback ones left out.
pub fn parse_proc_net_dev_names(contents: &str) -> (res: Vec<String>)
    ensures
        crate::text::texts(res@) == proc_net_dev_names(contents@),
{
    let ls = split_lines(chars_of(contents).as_slice());
    let mut res: Vec<String> = Vec::new();
    if ls.len() <= 2 {
        return res;
    }
    let mut i: usize = 2;
    while i < ls.len()
        invariant
            2 <= i <= ls.len(),
            views(ls@) == lines(contents@),
            crate::text::texts(res@) == names_upto(views(ls@), i as nat),
        decreases ls.len() - i,
    {
        proof {
            assert(views(ls@)[i as int] == ls@[i as int]@);
        }
        let pieces = split_on(ls[i].as_slice(), ':');
        proof {
            assert(split(ls@[i as int]@, ':').len() > 0);
            assert(views(pieces@)[0] == pieces@[0]@);
        }
        let n = trimmed(pieces[0].as_slice());
        let ghost before = res@;
        if !begins_with(n.as_slice(), "lo") {
            res.push(string_of(n.as_slice()));
            proof {
                assert(crate::text::texts(res@) =~= crate::text::texts(before).push(n@));
            }
        }
        proof {
            assert(crate::text::texts(res@) =~= names_upto(views(ls@), (i + 1) as nat));
        }
        i = i + 1;
    }
    res
}

} // verus!
