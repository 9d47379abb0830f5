//! Network diagnostics: how each interface stands, which of the usual ports
//! can be bound, and the advice that follows, in the wording of each
//! platform.
use vstd::prelude::*;
use crate::debug_fmt::{debug_list, debug_string_list};
use crate::macos_net::{is_preferred_at, select_multicast_interface};
use crate::network::FirewallStatus;
use crate::platform::{any_suitable, interface_views, InterfaceView, NetworkInterface, OsType};
use crate::text::{decimal, owned, push_decimal, push_str, texts};

verus! {

/// How a network interface stands.
#[derive(Debug, Clone)]
pub struct InterfaceStatus {
    /// The network interface.
    pub interface: NetworkInterface,
    /// Whether the interface is reachable.
    pub reachable: bool,
    /// Whether multicast works on this interface.
    pub multicast_capable: bool,
    /// What is wrong with the interface, if anything.
    pub error_message: Option<String>,
}

/// Network diagnostic information.
#[derive(Debug, Clone)]
pub struct NetworkDiagnostics {
    /// Whether multicast works on some interface.
    pub multicast_working: bool,
    /// The usual ports that can be bound.
    pub available_ports: Vec<u16>,
    /// The interfaces with their status.
    pub interface_status: Vec<InterfaceStatus>,
    /// Advice for the platform.
    pub diagnostic_messages: Vec<String>,
    /// The firewall's state, when it can be detected.
    pub firewall_status: Option<FirewallStatus>,
}

/// The ports a diagnosis tries, in order.
pub open spec fn diagnostic_port_list() -> Seq<u16> {
    seq![1900u16, 8080u16, 8081u16, 8082u16, 9090u16]
}

/// The ports a diagnosis tries.
pub fn diagnostic_ports() -> (res: Vec<u16>)
    ensures
        res@ == diagnostic_port_list(),
{
    let mut v: Vec<u16> = Vec::new();
    v.push(1900);
    v.push(8080);
    v.push(8081);
    v.push(8082);
    v.push(9090);
    proof {
        assert(v@ =~= diagnostic_port_list());
    }
    v
}

/// What is wrong with an interface, in a platform's diagnosis (the generic
/// diagnosis, `None`, says nothing).
pub open spec fn interface_problem(platform: Option<OsType>, reachable: bool, multicast: bool) -> Option<Seq<char>> {
    if platform is None {
        None
    } else if !reachable {
        Some("Interface is down or unreachable"@)
    } else if !multicast {
        Some("Interface does not support multicast"@)
    } else {
        None
    }
}

/// The status of an interface, given whether multicast worked on it: it is
/// reachable when it is up and not loopback.
pub fn interface_status(platform: Option<OsType>, interface: NetworkInterface, multicast_capable: bool) -> (res: InterfaceStatus)
    ensures
        res.interface == interface,
        res.reachable == (interface.is_up && !interface.is_loopback),
        res.multicast_capable == multicast_capable,
        crate::database::opt_text(res.error_message) == interface_problem(platform, res.reachable, multicast_capable),
{
    let reachable = interface.is_up && !interface.is_loopback;
    let error_message = match platform {
        None => None,
        Some(_) => if !reachable {
            Some(owned("Interface is down or unreachable"))
        } else if !multicast_capable {
            Some(owned("Interface does not support multicast"))
        } else {
            None
        },
    };
    InterfaceStatus { interface, reachable, multicast_capable, error_message }
}

/// Who must run the server to bind a privileged port, per platform.
pub open spec fn privilege_words(os: OsType) -> Seq<char> {
    match os {
        OsType::Linux => " requires root privileges on Linux"@,
        OsType::MacOS => " requires sudo privileges on macOS"@,
        OsType::Windows => " requires administrator privileges on Windows"@,
    }
}

/// The platform's name in diagnostic messages.
pub open spec fn platform_words(os: OsType) -> Seq<char> {
    match os {
        OsType::Linux => "Linux"@,
        OsType::MacOS => "macOS"@,
        OsType::Windows => "Windows"@,
    }
}

/// The messages about ports that could not be bound: a privileged port
/// that failed is reported by platform diagnoses when not elevated.
pub open spec fn port_messages(platform: Option<OsType>, results: Seq<(u16, bool)>, elevated: bool) -> Seq<Seq<char>>
    decreases results.len(),
{
    if results.len() == 0 {
        Seq::empty()
    } else {
        let r = port_messages(platform, results.drop_last(), elevated);
        let (port, ok) = results.last();
        match platform {
            Some(os) => if !ok && port < 1024 && !elevated {
                r.push("Port "@ + decimal(port as nat) + privilege_words(os))
            } else {
                r
            },
            None => r,
        }
    }
}

/// The ports that could be bound, in order.
pub open spec fn bound_ports(results: Seq<(u16, bool)>) -> Seq<u16>
    decreases results.len(),
{
    if results.len() == 0 {
        Seq::empty()
    } else {
        let r = bound_ports(results.drop_last());
        if results.last().1 {
            r.push(results.last().0)
        } else {
            r
        }
    }
}

/// The advice when no usual port could be bound.
pub open spec fn no_port_messages(platform: Option<OsType>, elevated: bool) -> Seq<Seq<char>> {
    match platform {
        None => seq!["No common ports are available for binding"@],
        Some(os) => {
            let first = "No common ports are available for binding on "@ + platform_words(os);
            if elevated {
                seq![first]
            } else if os == OsType::Windows {
                seq![first, "Consider running as administrator to access privileged ports"@]
            } else {
                seq![first, "Consider running with sudo to access privileged ports"@]
            }
        },
    }
}

/// The advice when no interface carries multicast.
pub open spec fn no_multicast_messages(platform: Option<OsType>) -> Seq<Seq<char>> {
    match platform {
        None => seq!["No interfaces support multicast"@],
        Some(OsType::Linux) => seq![
            "No Linux interfaces support multicast"@,
            "Check network interface configuration and kernel modules"@,
        ],
        Some(OsType::MacOS) => seq![
            "No macOS interfaces support multicast"@,
            "Check network interface configuration and drivers"@,
        ],
        Some(OsType::Windows) => seq![
            "No Windows interfaces support multicast"@,
            "Check network adapter settings and drivers"@,
        ],
    }
}

/// The interface macOS would prefer for multicast among `s`, if any.
pub open spec fn preferred_of(s: Seq<InterfaceView>) -> Option<InterfaceView> {
    if any_suitable(s) {
        Some(s[choose|i: int| is_preferred_at(s, i)])
    } else {
        None
    }
}

/// The platform's closing notes: network namespaces on Linux, the
/// preferred multicast interface on macOS.
pub open spec fn closing_messages(platform: Option<OsType>, namespaces: Seq<Seq<char>>, s: Seq<InterfaceView>) -> Seq<Seq<char>> {
    match platform {
        Some(OsType::Linux) => if namespaces.len() > 0 {
            seq!["Network namespaces detected: "@ + debug_list(namespaces), "Consider running in the correct network namespace"@]
        } else {
            Seq::empty()
        },
        Some(OsType::MacOS) => match preferred_of(s) {
            Some(p) => seq!["Preferred multicast interface: "@ + p.name + " ("@ + p.ip_address.text() + ")"@],
            None => Seq::empty(),
        },
        _ => Seq::empty(),
    }
}

/// All the advice of a diagnosis, in order.
pub open spec fn diagnosis_messages(
    platform: Option<OsType>,
    statuses: Seq<InterfaceStatus>,
    results: Seq<(u16, bool)>,
    elevated: bool,
    namespaces: Seq<Seq<char>>,
) -> Seq<Seq<char>> {
    port_messages(platform, results, elevated) + (if bound_ports(results).len() == 0 {
        no_port_messages(platform, elevated)
    } else {
        Seq::empty()
    }) + (if forall|i: int| 0 <= i < statuses.len() ==> !(#[trigger] statuses[i]).multicast_capable {
        no_multicast_messages(platform)
    } else {
        Seq::empty()
    }) + closing_messages(platform, namespaces, statuses.map_values(|st: InterfaceStatus| st.interface@))
}

fn push_all(out: &mut Vec<String>, items: Vec<String>)
    ensures
        texts(final(out)@) == texts(old(out)@) + texts(items@),
{
    let mut i: usize = 0;
    while i < items.len()
        invariant
            i <= items.len(),
            texts(out@) == texts(old(out)@) + texts(items@).subrange(0, i as int),
        decreases items.len() - i,
    {
        let ghost prev = out@;
        out.push(items[i].clone());
        proof {
            assert(texts(out@) =~= texts(prev).push(items@[i as int]@));
            assert(texts(items@).subrange(0, i + 1) =~= texts(items@).subrange(0, i as int).push(items@[i as int]@));
        }
        i = i + 1;
    }
    proof {
        assert(texts(items@).subrange(0, items@.len() as int) =~= texts(items@));
    }
}

fn no_port_advice(platform: Option<OsType>, elevated: bool) -> (res: Vec<String>)
    ensures
        texts(res@) == no_port_messages(platform, elevated),
{
    let mut v: Vec<String> = Vec::new();
    match platform {
        None => {
            v.push(owned("No common ports are available for binding"));
        },
        Some(os) => {
            let mut first = owned("No common ports are available for binding on ");
            match os {
                OsType::Linux => push_str(&mut first, "Linux"),
                OsType::MacOS => push_str(&mut first, "macOS"),
                OsType::Windows => push_str(&mut first, "Windows"),
            }
            v.push(first);
            if !elevated {
                match os {
                    OsType::Windows => v.push(owned("Consider running as administrator to access privileged ports")),
                    _ => v.push(owned("Consider running with sudo to access privileged ports")),
                }
            }
        },
    }
    proof {
        assert(texts(v@) =~= no_port_messages(platform, elevated));
    }
    v
}

fn no_multicast_advice(platform: Option<OsType>) -> (res: Vec<String>)
    ensures
        texts(res@) == no_multicast_messages(platform),
{
    let mut v: Vec<String> = Vec::new();
    match platform {
        None => {
            v.push(owned("No interfaces support multicast"));
        },
        Some(OsType::Linux) => {
            v.push(owned("No Linux interfaces support multicast"));
            v.push(owned("Check network interface configuration and kernel modules"));
        },
        Some(OsType::MacOS) => {
            v.push(owned("No macOS interfaces support multicast"));
            v.push(owned("Check network interface configuration and drivers"));
        },
        Some(OsType::Windows) => {
            v.push(owned("No Windows interfaces support multicast"));
            v.push(owned("Check network adapter settings and drivers"));
        },
    }
    proof {
        assert(texts(v@) =~= no_multicast_messages(platform));
    }
    v
}

proof fn lemma_preferred_unique(s: Seq<InterfaceView>, i: int, j: int)
    requires
        is_preferred_at(s, i),
        is_preferred_at(s, j),
    ensures
        i == j,
{
    if i < j {
        assert(crate::macos_net::multicast_rank(s[j]) < crate::macos_net::multicast_rank(s[i]));
    }
    if j < i {
        assert(crate::macos_net::multicast_rank(s[i]) < crate::macos_net::multicast_rank(s[j]));
    }
}

fn closing_advice(platform: Option<OsType>, namespaces: &Vec<String>, statuses: &Vec<InterfaceStatus>) -> (res: Vec<String>)
    ensures
        texts(res@) == closing_messages(
            platform,
            texts(namespaces@),
            statuses@.map_values(|st: InterfaceStatus| st.interface@),
        ),
{
    let mut v: Vec<String> = Vec::new();
    match platform {
        Some(OsType::Linux) => {
            if namespaces.len() > 0 {
                let mut m = owned("Network namespaces detected: ");
                push_str(&mut m, debug_string_list(namespaces).as_str());
                v.push(m);
                v.push(owned("Consider running in the correct network namespace"));
                proof {
                    assert(texts(v@) =~= closing_messages(
                        platform,
                        texts(namespaces@),
                        statuses@.map_values(|st: InterfaceStatus| st.interface@),
                    ));
                }
            } else {
                proof {
                    assert(texts(v@) =~= Seq::<Seq<char>>::empty());
                }
            }
        },
        Some(OsType::MacOS) => {
            let mut ifaces: Vec<NetworkInterface> = Vec::new();
            let mut i: usize = 0;
            while i < statuses.len()
                invariant
                    i <= statuses.len(),
                    interface_views(ifaces@) =~= statuses@.subrange(0, i as int).map_values(
                        |st: InterfaceStatus| st.interface@,
                    ),
                decreases statuses.len() - i,
            {
                let ghost prev = ifaces@;
                ifaces.push(statuses[i].interface.duplicate());
                proof {
                    assert(interface_views(ifaces@) =~= interface_views(prev).push(statuses@[i as int].interface@));
                }
                i = i + 1;
            }
            proof {
                assert(statuses@.subrange(0, statuses@.len() as int) =~= statuses@);
            }
            let ghost s = interface_views(ifaces@);
            match select_multicast_interface(&ifaces) {
                Some(p) => {
                    proof {
                        let k = choose|k: int| is_preferred_at(s, k) && *p == ifaces@[k];
                        let c = choose|c: int| is_preferred_at(s, c);
                        lemma_preferred_unique(s, k, c);
                        assert(s[k] == ifaces@[k]@);
                    }
                    let mut m = owned("Preferred multicast interface: ");
                    push_str(&mut m, p.name.as_str());
                    push_str(&mut m, " (");
                    push_str(&mut m, p.ip_address.to_text().as_str());
                    push_str(&mut m, ")");
                    v.push(m);
                    proof {
                        assert(texts(v@) =~= closing_messages(
                            platform,
                            texts(namespaces@),
                            statuses@.map_values(|st: InterfaceStatus| st.interface@),
                        ));
                    }
                },
                None => {
                    proof {
                        assert(texts(v@) =~= Seq::<Seq<char>>::empty());
                    }
                },
            }
        },
        _ => {
            proof {
                assert(texts(v@) =~= Seq::<Seq<char>>::empty());
            }
        },
    }
    v
}

/// Put a diagnosis together from the interfaces' statuses, the outcome of
/// trying each port (`true` when it could be bound), whether the process is
/// elevated, the network namespaces seen and the firewall's state.
pub fn assemble_network_diagnostics(
    platform: Option<OsType>,
    statuses: Vec<InterfaceStatus>,
    port_results: &Vec<(u16, bool)>,
    elevated: bool,
    namespaces: &Vec<String>,
    firewall_status: Option<FirewallStatus>,
) -> (res: NetworkDiagnostics)
    ensures
        res.multicast_working == exists|i: int| 0 <= i < statuses@.len() && (#[trigger] statuses@[i]).multicast_capable,
        res.available_ports@ == bound_ports(port_results@),
        res.interface_status@ == statuses@,
        texts(res.diagnostic_messages@) == diagnosis_messages(
            platform,
            statuses@,
            port_results@,
            elevated,
            texts(namespaces@),
        ),
        res.firewall_status == firewall_status,
{
    let mut available: Vec<u16> = Vec::new();
    let mut messages: Vec<String> = Vec::new();
    let mut i: usize = 0;
    while i < port_results.len()
        invariant
            i <= port_results.len(),
            available@ == bound_ports(port_results@.subrange(0, i as int)),
            texts(messages@) == port_messages(platform, port_results@.subrange(0, i as int), elevated),
        decreases port_results.len() - i,
    {
        proof {
            assert(port_results@.subrange(0, i + 1).drop_last() =~= port_results@.subrange(0, i as int));
        }
        let (port, ok) = port_results[i];
        if ok {
            available.push(port);
        } else {
            match platform {
                Some(os) => {
                    if port < 1024 && !elevated {
                        let mut m = owned("Port ");
                        push_decimal(&mut m, port as u64);
                        match os {
                            OsType::Linux => push_str(&mut m, " requires root privileges on Linux"),
                            OsType::MacOS => push_str(&mut m, " requires sudo privileges on macOS"),
                            OsType::Windows => push_str(&mut m, " requires administrator privileges on Windows"),
                        }
                        let ghost prev = messages@;
                        messages.push(m);
                        proof {
                            assert(texts(messages@) =~= texts(prev).push(m@));
                        }
                    }
                },
                None => {},
            }
        }
        i = i + 1;
    }
    proof {
        assert(port_results@.subrange(0, port_results@.len() as int) =~= port_results@);
    }
    if available.len() == 0 {
        push_all(&mut messages, no_port_advice(platform, elevated));
    }
    let mut any = false;
    let mut k: usize = 0;
    while k < statuses.len()
        invariant
            k <= statuses.len(),
            any == exists|j: int| 0 <= j < k && (#[trigger] statuses@[j]).multicast_capable,
        decreases statuses.len() - k,
    {
        if statuses[k].multicast_capable {
            any = true;
        }
        k = k + 1;
    }
    if !any {
        push_all(&mut messages, no_multicast_advice(platform));
    }
    push_all(&mut messages, closing_advice(platform, namespaces, &statuses));
    proof {
        let nm = if bound_ports(port_results@).len() == 0 {
            no_port_messages(platform, elevated)
        } else {
            Seq::empty()
        };
        let nc = if forall|j: int| 0 <= j < statuses@.len() ==> !(#[trigger] statuses@[j]).multicast_capable {
            no_multicast_messages(platform)
        } else {
            Seq::empty()
        };
        assert(texts(messages@) =~= port_messages(platform, port_results@, elevated) + nm + nc + closing_messages(
            platform,
            texts(namespaces@),
            statuses@.map_values(|st: InterfaceStatus| st.interface@),
        ));
    }
    NetworkDiagnostics {
        multicast_working: any,
        available_ports: available,
        interface_status: statuses,
        diagnostic_messages: messages,
        firewall_status,
    }
}

} // verus!
