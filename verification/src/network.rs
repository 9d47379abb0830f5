//! SSDP network settings, the choice and ordering of interfaces, and what
//! each platform's firewall probe tells about SSDP traffic.
use vstd::prelude::*;
use crate::debug_fmt::{debug_number_list, debug_numbers};
use crate::ip::IpAddress;
use crate::linux_net::holds;
use crate::platform::{interface_views, InterfaceView, NetworkInterface, OsType};
use crate::platform_error::PlatformError;
use crate::text::{chars_of, contains, decimal, lines, owned, push_str, split_lines, texts, trim, trimmed};

verus! {

/// Configuration for SSDP networking.
#[derive(Debug, Clone)]
pub struct SsdpConfig {
    /// Primary port to attempt binding (usually 1900).
    pub primary_port: u16,
    /// Fallback ports to try if the primary port is unavailable.
    pub fallback_ports: Vec<u16>,
    /// Multicast address for SSDP (usually 239.255.255.250).
    pub multicast_address: IpAddress,
    /// Seconds between SSDP announcements.
    pub announce_interval_secs: u64,
    /// Maximum number of retries for network operations.
    pub max_retries: u32,
    /// Specific interfaces to use (none means every suitable one).
    pub interfaces: Vec<NetworkInterface>,
}

impl Default for SsdpConfig {
    fn default() -> (res: Self)
        ensures
            res.primary_port == 1900,
            res.fallback_ports@ == seq![8080u16, 8081, 8082, 9090],
            res.multicast_address == IpAddress::V4(239, 255, 255, 250),
            res.announce_interval_secs == 300,
            res.max_retries == 3,
            res.interfaces@.len() == 0,
    {
        let fallback_ports: Vec<u16> = vec![8080, 8081, 8082, 9090];
        assert(fallback_ports@ =~= seq![8080u16, 8081, 8082, 9090]);
        SsdpConfig {
            primary_port: 1900,
            fallback_ports,
            multicast_address: IpAddress::V4(239, 255, 255, 250),
            announce_interval_secs: 300,
            max_retries: 3,
            interfaces: Vec::new(),
        }
    }
}

impl SsdpConfig {
    /// The ports to try, in order: the primary one, then the fallbacks.
    pub fn port_candidates(&self) -> (res: Vec<u16>)
        ensures
            res@ == seq![self.primary_port] + self.fallback_ports@,
    {
        let mut v: Vec<u16> = Vec::new();
        v.push(self.primary_port);
        let mut i: usize = 0;
        while i < self.fallback_ports.len()
            invariant
                i <= self.fallback_ports.len(),
                v@ =~= seq![self.primary_port] + self.fallback_ports@.subrange(0, i as int),
            decreases self.fallback_ports.len() - i,
        {
            v.push(self.fallback_ports[i]);
            i = i + 1;
        }
        proof {
            assert(self.fallback_ports@.subrange(0, self.fallback_ports@.len() as int) =~= self.fallback_ports@);
        }
        v
    }

    /// The error reported when no candidate port is free.
    pub fn no_available_port(&self) -> (res: PlatformError)
        ensures
            res matches PlatformError::NetworkConfig(m) && m@ == "No available ports found. Tried primary port "@
                + decimal(self.primary_port as nat) + " and fallback ports "@ + debug_numbers(self.fallback_ports@),
    {
        let mut s = crate::text::around_decimal(
            "No available ports found. Tried primary port ",
            self.primary_port as u64,
            " and fallback ports ",
        );
        let d = debug_number_list(&self.fallback_ports);
        push_str(&mut s, d.as_str());
        PlatformError::NetworkConfig(s)
    }
}

// ---------------------------------------------------------------------------
// Choosing and ordering interfaces
// ---------------------------------------------------------------------------

/// The suitable interfaces of a list, in order.
pub open spec fn suitable_only(s: Seq<InterfaceView>) -> Seq<InterfaceView>
    decreases s.len(),
{
    if s.len() == 0 {
        Seq::empty()
    } else {
        suitable_only(s.drop_last()) + if s.last().suitable() {
            seq![s.last()]
        } else {
            Seq::<InterfaceView>::empty()
        }
    }
}

/// The interfaces of a given rank, in order.
pub open spec fn of_rank(s: Seq<InterfaceView>, r: nat) -> Seq<InterfaceView>
    decreases s.len(),
{
    if s.len() == 0 {
        Seq::empty()
    } else {
        of_rank(s.drop_last(), r) + if s.last().kind.rank() == r {
            seq![s.last()]
        } else {
            Seq::<InterfaceView>::empty()
        }
    }
}

/// Interfaces ordered by preference, keeping the order of equally preferred
/// ones: Ethernet, Wi-Fi, VPN, other kinds, loopback.
pub open spec fn by_preference(s: Seq<InterfaceView>) -> Seq<InterfaceView> {
    of_rank(s, 0) + of_rank(s, 1) + of_rank(s, 2) + of_rank(s, 3) + of_rank(s, 4)
}

/// Keep the interfaces that suit DLNA traffic: up, not loopback, multicast
/// capable.
pub fn filter_suitable_interfaces(interfaces: Vec<NetworkInterface>) -> (res: Vec<NetworkInterface>)
    ensures
        interface_views(res@) == suitable_only(interface_views(interfaces@)),
{
    let mut out: Vec<NetworkInterface> = Vec::new();
    let mut i: usize = 0;
    while i < interfaces.len()
        invariant
            i <= interfaces.len(),
            interface_views(out@) == suitable_only(interface_views(interfaces@).subrange(0, i as int)),
        decreases interfaces.len() - i,
    {
        proof {
            assert(interface_views(interfaces@).subrange(0, i + 1).drop_last() =~= interface_views(
                interfaces@,
            ).subrange(0, i as int));
        }
        let ghost before = out@;
        if interfaces[i].is_suitable() {
            out.push(interfaces[i].duplicate());
            proof {
                assert(interface_views(out@) =~= interface_views(before).push(interfaces@[i as int]@));
            }
        } else {
            proof {
                assert(interface_views(out@) =~= interface_views(before) + Seq::<InterfaceView>::empty());
            }
        }
        i = i + 1;
    }
    proof {
        assert(interface_views(interfaces@).subrange(0, interfaces@.len() as int) =~= interface_views(interfaces@));
    }
    out
}

fn rank_bucket(interfaces: &Vec<NetworkInterface>, r: u8, out: &mut Vec<NetworkInterface>)
    ensures
        interface_views(final(out)@) == interface_views(old(out)@) + of_rank(interface_views(interfaces@), r as nat),
{
    let ghost start = interface_views(out@);
    let mut i: usize = 0;
    while i < interfaces.len()
        invariant
            i <= interfaces.len(),
            interface_views(out@) == start + of_rank(interface_views(interfaces@).subrange(0, i as int), r as nat),
        decreases interfaces.len() - i,
    {
        proof {
            assert(interface_views(interfaces@).subrange(0, i + 1).drop_last() =~= interface_views(
                interfaces@,
            ).subrange(0, i as int));
        }
        let ghost before = out@;
        if interfaces[i].interface_type.rank() == r {
            out.push(interfaces[i].duplicate());
            proof {
                assert(interface_views(out@) =~= interface_views(before).push(interfaces@[i as int]@));
            }
        } else {
            proof {
                assert(interface_views(out@) =~= interface_views(before) + Seq::<InterfaceView>::empty());
            }
        }
        i = i + 1;
    }
    proof {
        assert(interface_views(interfaces@).subrange(0, interfaces@.len() as int) =~= interface_views(interfaces@));
    }
}

/// Order interfaces by preference (Ethernet, Wi-Fi, VPN, other, loopback),
/// equally preferred ones keeping their order.
pub fn prioritize_interfaces(interfaces: Vec<NetworkInterface>) -> (res: Vec<NetworkInterface>)
    ensures
        interface_views(res@) == by_preference(interface_views(interfaces@)),
{
    let mut out: Vec<NetworkInterface> = Vec::new();
    rank_bucket(&interfaces, 0, &mut out);
    rank_bucket(&interfaces, 1, &mut out);
    rank_bucket(&interfaces, 2, &mut out);
    rank_bucket(&interfaces, 3, &mut out);
    rank_bucket(&interfaces, 4, &mut out);
    proof {
        assert(interface_views(out@) =~= by_preference(interface_views(interfaces@)));
    }
    out
}

proof fn lemma_of_rank_len(s: Seq<InterfaceView>)
    ensures
        of_rank(s, 0).len() + of_rank(s, 1).len() + of_rank(s, 2).len() + of_rank(s, 3).len() + of_rank(
            s,
            4,
        ).len() == s.len(),
    decreases s.len(),
{
    if s.len() > 0 {
        lemma_of_rank_len(s.drop_last());
    }
}

proof fn lemma_of_rank_count(s: Seq<InterfaceView>, r: nat, x: InterfaceView)
    ensures
        of_rank(s, r).to_multiset().count(x) == if x.kind.rank() == r {
            s.to_multiset().count(x)
        } else {
            0
        },
    decreases s.len(),
{
    broadcast use vstd::seq_lib::group_to_multiset_ensures;
    if s.len() > 0 {
        lemma_of_rank_count(s.drop_last(), r, x);
        let p = s.drop_last();
        assert(s =~= p.push(s.last()));
        vstd::seq_lib::lemma_multiset_commutative(of_rank(p, r), if s.last().kind.rank() == r {
            seq![s.last()]
        } else {
            Seq::<InterfaceView>::empty()
        });
    }
}

/// Ordering by preference keeps every interface, each as often as before,
/// and puts more preferred ones first.
pub proof fn law_prioritize_is_a_stable_reordering(s: Seq<InterfaceView>)
    ensures
        by_preference(s).len() == s.len(),
        forall|x: InterfaceView| by_preference(s).to_multiset().count(x) == s.to_multiset().count(x),
        forall|i: int, j: int| 0 <= i < j < by_preference(s).len() ==> by_preference(s)[i].kind.rank()
            <= by_preference(s)[j].kind.rank(),
{
    broadcast use vstd::seq_lib::group_to_multiset_ensures;
    lemma_of_rank_len(s);
    assert forall|x: InterfaceView| by_preference(s).to_multiset().count(x) == s.to_multiset().count(x) by {
        lemma_of_rank_count(s, 0, x);
        lemma_of_rank_count(s, 1, x);
        lemma_of_rank_count(s, 2, x);
        lemma_of_rank_count(s, 3, x);
        lemma_of_rank_count(s, 4, x);
        let a = of_rank(s, 0);
        let b = of_rank(s, 1);
        let c = of_rank(s, 2);
        let d = of_rank(s, 3);
        let e = of_rank(s, 4);
        vstd::seq_lib::lemma_multiset_commutative(a, b);
        vstd::seq_lib::lemma_multiset_commutative(a + b, c);
        vstd::seq_lib::lemma_multiset_commutative(a + b + c, d);
        vstd::seq_lib::lemma_multiset_commutative(a + b + c + d, e);
        assert(x.kind.rank() <= 4);
    }
    let p = by_preference(s);
    assert forall|i: int, j: int| 0 <= i < j < p.len() implies p[i].kind.rank() <= p[j].kind.rank() by {
        lemma_of_rank_members(s, 0);
        lemma_of_rank_members(s, 1);
        lemma_of_rank_members(s, 2);
        lemma_of_rank_members(s, 3);
        lemma_of_rank_members(s, 4);
        let l0 = of_rank(s, 0).len() as int;
        let l1 = l0 + of_rank(s, 1).len();
        let l2 = l1 + of_rank(s, 2).len();
        let l3 = l2 + of_rank(s, 3).len();
        assert(forall|k: int| 0 <= k < l0 ==> p[k] == of_rank(s, 0)[k]);
        assert(forall|k: int| l0 <= k < l1 ==> p[k] == of_rank(s, 1)[k - l0]);
        assert(forall|k: int| l1 <= k < l2 ==> p[k] == of_rank(s, 2)[k - l1]);
        assert(forall|k: int| l2 <= k < l3 ==> p[k] == of_rank(s, 3)[k - l2]);
        assert(forall|k: int| l3 <= k < p.len() ==> p[k] == of_rank(s, 4)[k - l3]);
    }
}

proof fn lemma_of_rank_members(s: Seq<InterfaceView>, r: nat)
    ensures
        forall|k: int| 0 <= k < of_rank(s, r).len() ==> (#[trigger] of_rank(s, r)[k]).kind.rank() == r,
    decreases s.len(),
{
    if s.len() > 0 {
        lemma_of_rank_members(s.drop_last(), r);
        let q = of_rank(s.drop_last(), r);
        assert forall|k: int| 0 <= k < of_rank(s, r).len() implies (#[trigger] of_rank(s, r)[k]).kind.rank() == r by {
            if k < q.len() {
                assert(of_rank(s, r)[k] == q[k]);
            }
        }
    }
}

// ---------------------------------------------------------------------------
// Firewall probes
// ---------------------------------------------------------------------------

/// Firewall status information.
#[derive(Debug, Clone)]
pub struct FirewallStatus {
    /// Whether a firewall is detected.
    pub detected: bool,
    /// Whether the firewall blocks SSDP traffic, when known.
    pub blocking_ssdp: Option<bool>,
    /// Suggested actions to resolve firewall issues.
    pub suggestions: Vec<String>,
}

/// What the Linux firewall probe concludes, from which firewall tools exist
/// and the status output of the one consulted (UFW before firewalld before
/// iptables; `None` when its status command failed).
pub open spec fn linux_firewall(
    has_iptables: bool,
    has_ufw: bool,
    has_firewalld: bool,
    status: Option<Seq<char>>,
) -> (bool, Option<bool>, Seq<Seq<char>>) {
    let (detected, blocking, s1): (bool, Option<bool>, Seq<Seq<char>>) = if has_ufw {
        match status {
            Some(o) => if contains(o, "Status: active"@) {
                (
                    true,
                    Some(true),
                    seq![
                        "Check UFW rules: sudo ufw status verbose"@,
                        "Allow SSDP traffic: sudo ufw allow 1900/udp"@,
                        "Allow your HTTP server port: sudo ufw allow <port>/tcp"@,
                    ],
                )
            } else {
                (false, None, Seq::empty())
            },
            None => (false, None, Seq::empty()),
        }
    } else if has_firewalld {
        match status {
            Some(o) => if trim(o) == "running"@ {
                (
                    true,
                    Some(true),
                    seq![
                        "Check firewalld rules: sudo firewall-cmd --list-all"@,
                        "Allow SSDP service: sudo firewall-cmd --add-service=ssdp --permanent"@,
                        "Reload firewalld: sudo firewall-cmd --reload"@,
                    ],
                )
            } else {
                (false, None, Seq::empty())
            },
            None => (false, None, Seq::empty()),
        }
    } else if has_iptables {
        match status {
            Some(o) => if o.len() > 0 && lines(o).len() > 3 {
                (
                    true,
                    Some(contains(o, "DROP"@) || contains(o, "REJECT"@)),
                    seq![
                        "Check iptables rules: sudo iptables -L -n"@,
                        "Allow SSDP traffic: sudo iptables -A INPUT -p udp --dport 1900 -j ACCEPT"@,
                    ],
                )
            } else {
                (false, None, Seq::empty())
            },
            None => (false, None, Seq::empty()),
        }
    } else {
        (false, None, Seq::empty())
    };
    let s2 = if !detected && (has_iptables || has_ufw || has_firewalld) {
        s1.push("Firewall tools detected but status unclear. Check manually."@)
    } else {
        s1
    };
    let s3 = if detected {
        s2 + seq![
            "Consider temporarily disabling firewall to test connectivity"@,
            "Ensure multicast traffic is allowed on your network interfaces"@,
        ]
    } else {
        s2
    };
    (detected, blocking, s3)
}

impl FirewallStatus {
    /// The status as its parts.
    pub open spec fn parts(&self) -> (bool, Option<bool>, Seq<Seq<char>>) {
        (self.detected, self.blocking_ssdp, texts(self.suggestions@))
    }

    /// The Linux firewall status from the probe's findings (see
    /// `linux_firewall`).
    pub fn linux(has_iptables: bool, has_ufw: bool, has_firewalld: bool, status: Option<&str>) -> (res: FirewallStatus)
        ensures
            res.parts() == linux_firewall(
                has_iptables,
                has_ufw,
                has_firewalld,
                match status {
                    Some(o) => Some(o@),
                    None => None,
                },
            ),
    {
        let mut detected = false;
        let mut blocking: Option<bool> = None;
        let mut s: Vec<String> = Vec::new();
        if has_ufw {
            match status {
                Some(o) => {
                    if holds(chars_of(o).as_slice(), "Status: active") {
                        detected = true;
                        blocking = Some(true);
                        s.push(owned("Check UFW rules: sudo ufw status verbose"));
                        s.push(owned("Allow SSDP traffic: sudo ufw allow 1900/udp"));
                        s.push(owned("Allow your HTTP server port: sudo ufw allow <port>/tcp"));
                    }
                },
                None => {},
            }
        } else if has_firewalld {
            match status {
                Some(o) => {
                    let t = trimmed(chars_of(o).as_slice());
                    if crate::text::eq_str(t.as_slice(), "running") {
                        detected = true;
                        blocking = Some(true);
                        s.push(owned("Check firewalld rules: sudo firewall-cmd --list-all"));
                        s.push(owned("Allow SSDP service: sudo firewall-cmd --add-service=ssdp --permanent"));
                        s.push(owned("Reload firewalld: sudo firewall-cmd --reload"));
                    }
                },
                None => {},
            }
        } else if has_iptables {
            match status {
                Some(o) => {
                    let oc = chars_of(o);
                    let ls = split_lines(oc.as_slice());
                    if oc.len() > 0 && ls.len() > 3 {
                        detected = true;
                        blocking = Some(holds(oc.as_slice(), "DROP") || holds(oc.as_slice(), "REJECT"));
                        s.push(owned("Check iptables rules: sudo iptables -L -n"));
                        s.push(owned("Allow SSDP traffic: sudo iptables -A INPUT -p udp --dport 1900 -j ACCEPT"));
                    }
                },
                None => {},
            }
        }
        if !detected && (has_iptables || has_ufw || has_firewalld) {
            s.push(owned("Firewall tools detected but status unclear. Check manually."));
        }
        if detected {
            s.push(owned("Consider temporarily disabling firewall to test connectivity"));
            s.push(owned("Ensure multicast traffic is allowed on your network interfaces"));
        }
        let res = FirewallStatus { detected, blocking_ssdp: blocking, suggestions: s };
        proof {
            assert(res.parts() =~= linux_firewall(
                has_iptables,
                has_ufw,
                has_firewalld,
                match status {
                    Some(o) => Some(o@),
                    None => None,
                },
            ));
        }
        res
    }
}

/// What the macOS firewall probe concludes from the application firewall's
/// global state (`None` when it could not be read): any state but `0`
/// means a firewall, state `2` one that blocks SSDP.
pub open spec fn macos_firewall(state_output: Option<Seq<char>>) -> (bool, Option<bool>, Seq<Seq<char>>) {
    match state_output {
        Some(o) => {
            let state = trim(o);
            if state != "0"@ {
                (
                    true,
                    Some(state == "2"@),
                    seq![
                        "Check macOS System Preferences > Security & Privacy > Firewall"@,
                        "Add your DLNA application to the firewall exceptions"@,
                        "Consider temporarily disabling the firewall to test connectivity"@,
                        "Use 'sudo pfctl -s rules' to check packet filter rules"@,
                        "Ensure network interfaces allow multicast traffic"@,
                    ],
                )
            } else {
                (false, Some(false), Seq::empty())
            }
        },
        None => (
            false,
            None,
            seq!["Unable to detect firewall status. Check System Preferences > Security & Privacy > Firewall"@],
        ),
    }
}

/// What the Windows firewall probe concludes from the firewall's profile
/// states (`None` when they could not be read).
pub open spec fn windows_firewall(state_output: Option<Seq<char>>) -> (bool, Option<bool>, Seq<Seq<char>>) {
    match state_output {
        Some(o) => if contains(o, "ON"@) || contains(o, "State"@) {
            let (blocking, s1): (Option<bool>, Seq<Seq<char>>) = if contains(o, "Block"@) {
                (
                    Some(true),
                    seq![
                        "Consider adding a firewall rule for SSDP traffic (UDP port 1900)"@,
                        "Run: netsh advfirewall firewall add rule name=\"DLNA SSDP\" dir=in action=allow protocol=UDP localport=1900"@,
                    ],
                )
            } else {
                (Some(false), Seq::empty())
            };
            (
                true,
                blocking,
                s1 + seq![
                    "Open Windows Defender Firewall with Advanced Security"@,
                    "Create inbound rules for UDP ports 1900 (SSDP) and your HTTP server port"@,
                ],
            )
        } else {
            (false, None, Seq::empty())
        },
        None => (
            false,
            None,
            seq![
                "Unable to detect firewall status. If experiencing connection issues, check Windows Defender Firewall settings"@,
            ],
        ),
    }
}

impl FirewallStatus {
    /// The macOS firewall status from the application firewall's state.
    pub fn macos(state_output: Option<&str>) -> (res: FirewallStatus)
        ensures
            res.parts() == macos_firewall(
                match state_output {
                    Some(o) => Some(o@),
                    None => None,
                },
            ),
    {
        let mut s: Vec<String> = Vec::new();
        let res = match state_output {
            Some(o) => {
                let state = trimmed(chars_of(o).as_slice());
                if !crate::text::eq_str(state.as_slice(), "0") {
                    s.push(owned("Check macOS System Preferences > Security & Privacy > Firewall"));
                    s.push(owned("Add your DLNA application to the firewall exceptions"));
                    s.push(owned("Consider temporarily disabling the firewall to test connectivity"));
                    s.push(owned("Use 'sudo pfctl -s rules' to check packet filter rules"));
                    s.push(owned("Ensure network interfaces allow multicast traffic"));
                    let strict = crate::text::eq_str(state.as_slice(), "2");
                    FirewallStatus { detected: true, blocking_ssdp: Some(strict), suggestions: s }
                } else {
                    FirewallStatus { detected: false, blocking_ssdp: Some(false), suggestions: s }
                }
            },
            None => {
                s.push(owned("Unable to detect firewall status. Check System Preferences > Security & Privacy > Firewall"));
                FirewallStatus { detected: false, blocking_ssdp: None, suggestions: s }
            },
        };
        proof {
            assert(res.parts() =~= macos_firewall(
                match state_output {
                    Some(o) => Some(o@),
                    None => None,
                },
            ));
        }
        res
    }

    /// The Windows firewall status from the firewall's profile states.
    pub fn windows(state_output: Option<&str>) -> (res: FirewallStatus)
        ensures
            res.parts() == windows_firewall(
                match state_output {
                    Some(o) => Some(o@),
                    None => None,
                },
            ),
    {
        let mut s: Vec<String> = Vec::new();
        let res = match state_output {
            Some(o) => {
                let oc = chars_of(o);
                if holds(oc.as_slice(), "ON") || holds(oc.as_slice(), "State") {
                    let blocking = if holds(oc.as_slice(), "Block") {
                        s.push(owned("Consider adding a firewall rule for SSDP traffic (UDP port 1900)"));
                        s.push(owned("Run: netsh advfirewall firewall add rule name=\"DLNA SSDP\" dir=in action=allow protocol=UDP localport=1900"));
                        Some(true)
                    } else {
                        Some(false)
                    };
                    s.push(owned("Open Windows Defender Firewall with Advanced Security"));
                    s.push(owned("Create inbound rules for UDP ports 1900 (SSDP) and your HTTP server port"));
                    FirewallStatus { detected: true, blocking_ssdp: blocking, suggestions: s }
                } else {
                    FirewallStatus { detected: false, blocking_ssdp: None, suggestions: s }
                }
            },
            None => {
                s.push(owned("Unable to detect firewall status. If experiencing connection issues, check Windows Defender Firewall settings"));
                FirewallStatus { detected: false, blocking_ssdp: None, suggestions: s }
            },
        };
        proof {
            assert(res.parts() =~= windows_firewall(
                match state_output {
                    Some(o) => Some(o@),
                    None => None,
                },
            ));
        }
        res
    }
}

/// How setting up the SSDP socket ends on a platform, given the position
/// among the candidate ports of the first one that could be bound (`None`
/// when none could) and the interfaces found then: the port and the
/// suitable interfaces to use, or the message of the network error raised.
/// On the primary port, finding no suitable interface is an error; on a
/// fallback port the socket is used as it is. When no port could be bound,
/// the last bind error is raised, or one saying so if there was none.
pub open spec fn ssdp_setup_outcome(
    os: OsType,
    candidates: Seq<u16>,
    bound: Option<int>,
    interfaces: Seq<InterfaceView>,
) -> Result<(u16, Seq<InterfaceView>), Seq<char>> {
    match bound {
        Some(k) => if k == 0 && suitable_only(interfaces).len() == 0 {
            Err("No suitable network interfaces found on "@ + os.display_name_spec())
        } else {
            Ok((candidates[k], suitable_only(interfaces)))
        },
        None => Err("All ports failed on "@ + os.display_name_spec()),
    }
}

impl SsdpConfig {
    /// Decide how setting up the SSDP socket ends: `bound` is the position
    /// in `port_candidates` of the first port that could be bound, if any;
    /// `interfaces` are those detected once it was; `last_error` is the
    /// last bind error. The result is the port and the interfaces to use.
    pub fn ssdp_setup(
        &self,
        os: OsType,
        bound: Option<usize>,
        interfaces: Vec<NetworkInterface>,
        last_error: Option<PlatformError>,
    ) -> (res: Result<(u16, Vec<NetworkInterface>), PlatformError>)
        requires
            bound matches Some(k) ==> k <= self.fallback_ports@.len(),
        ensures
            match ssdp_setup_outcome(
                os,
                seq![self.primary_port] + self.fallback_ports@,
                match bound {
                    Some(k) => Some(k as int),
                    None => None,
                },
                interface_views(interfaces@),
            ) {
                Ok((p, s)) => res matches Ok((q, v)) && q == p && interface_views(v@) == s,
                Err(t) => if bound is None && last_error is Some {
                    res == Err::<(u16, Vec<NetworkInterface>), PlatformError>(last_error->0)
                } else {
                    res matches Err(PlatformError::NetworkConfig(m)) && m@ == t
                },
            },
    {
        match bound {
            Some(k) => {
                let suitable = filter_suitable_interfaces(interfaces);
                if k == 0 && suitable.len() == 0 {
                    let mut m = owned("No suitable network interfaces found on ");
                    push_str(&mut m, os.display_name());
                    Err(PlatformError::NetworkConfig(m))
                } else {
                    let port = if k == 0 {
                        self.primary_port
                    } else {
                        self.fallback_ports[k - 1]
                    };
                    assert(port == (seq![self.primary_port] + self.fallback_ports@)[k as int]);
                    Ok((port, suitable))
                }
            },
            None => match last_error {
                Some(e) => Err(e),
                None => {
                    let mut m = owned("All ports failed on ");
                    push_str(&mut m, os.display_name());
                    Err(PlatformError::NetworkConfig(m))
                },
            },
        }
    }
}

} // verus!
