//! What the start-up checks conclude: reading the outputs of the system
//! tools that report privileges, firewalls and security policies, the lines
//! the security checks log for each platform, and the lines that report a
//! detected platform. Running the tools and writing the log are left to the
//! caller.
use vstd::prelude::*;

use crate::app_error::{log_views, LogLevel};
use crate::linux_net::holds;
use crate::platform::{
    any_suitable, interface_views, is_primary_at, primary_interface_index, InterfaceKind, InterfaceType,
    InterfaceView, NetworkInterface, OsType, PlatformCapabilities, PlatformInfo,
};
use crate::text::{chars_of, contains, decimal, owned, push_decimal, push_str, trim, trimmed};
use crate::upnp::{parse_u64_text, u64_text};

verus! {

/// The number a decimal text denotes as `u32::from_str` reads it: an
/// optional `+`, one or more digits, a value that fits.
pub open spec fn u32_text(s: Seq<char>) -> Option<u32> {
    match u64_text(s) {
        Some(n) => if n <= u32::MAX {
            Some(n as u32)
        } else {
            None
        },
        None => None,
    }
}

fn parse_trimmed_u32(s: &str) -> (res: Option<u32>)
    ensures
        res == u32_text(trim(s@)),
{
    let t = trimmed(chars_of(s).as_slice());
    match parse_u64_text(t.as_slice()) {
        Some(n) => if n <= 0xffff_ffff {
            Some(n as u32)
        } else {
            None
        },
        None => None,
    }
}

/// A system tool whose output says whether something is in force.
#[derive(Debug, Clone, Copy, PartialEq, Eq, Structural)]
pub enum Probe {
    /// `id -u`: the user is root.
    RootUser,
    /// `netsh advfirewall show allprofiles state`: the firewall is on.
    WindowsFirewall,
    /// `Get-MpComputerStatus`: real-time protection is on.
    WindowsDefender,
    /// `defaults read /Library/Preferences/com.apple.alf globalstate`.
    MacFirewall,
    /// `spctl --status`: Gatekeeper assessments are enabled.
    Gatekeeper,
    /// `csrutil status`: System Integrity Protection is enabled.
    IntegrityProtection,
    /// `capsh --print`: the process may bind privileged ports.
    BindCapability,
    /// `aa-status`: AppArmor profiles are loaded.
    AppArmor,
}

/// What a probe's output says, the output being there only when the tool
/// ran and succeeded (a tool that failed says no). A number that cannot be
/// read counts as an ordinary user, or as a firewall that is off.
pub open spec fn probe_says(p: Probe, out: Option<Seq<char>>) -> bool {
    match out {
        None => false,
        Some(o) => match p {
            Probe::RootUser => u32_text(trim(o)) == Some(0u32),
            Probe::WindowsFirewall => contains(o, "ON"@),
            Probe::WindowsDefender => trim(o) == "True"@,
            Probe::MacFirewall => match u32_text(trim(o)) {
                Some(n) => n > 0,
                None => false,
            },
            Probe::Gatekeeper => contains(o, "assessments enabled"@),
            Probe::IntegrityProtection => contains(o, "enabled"@),
            Probe::BindCapability => contains(o, "cap_net_bind_service"@),
            Probe::AppArmor => contains(o, "profiles are loaded"@),
        },
    }
}

/// The view of an optional output.
pub open spec fn out_view(o: Option<&str>) -> Option<Seq<char>> {
    match o {
        Some(s) => Some(s@),
        None => None,
    }
}

/// Whether the output of a probe's tool says that what it reports is in
/// force.
pub fn probe_enabled(probe: Probe, output: Option<&str>) -> (res: bool)
    ensures
        res == probe_says(probe, out_view(output)),
{
    let o = match output {
        Some(o) => o,
        None => {
            return false;
        },
    };
    let c = chars_of(o);
    match probe {
        Probe::RootUser => match parse_trimmed_u32(o) {
            Some(n) => n == 0,
            None => false,
        },
        Probe::WindowsFirewall => holds(c.as_slice(), "ON"),
        Probe::WindowsDefender => {
            let t = trimmed(c.as_slice());
            let w = chars_of("True");
            proof {
                reveal_strlit("True");
            }
            crate::text::same_chars(t.as_slice(), w.as_slice())
        },
        Probe::MacFirewall => match parse_trimmed_u32(o) {
            Some(n) => n > 0,
            None => false,
        },
        Probe::Gatekeeper => holds(c.as_slice(), "assessments enabled"),
        Probe::IntegrityProtection => holds(c.as_slice(), "enabled"),
        Probe::BindCapability => holds(c.as_slice(), "cap_net_bind_service"),
        Probe::AppArmor => holds(c.as_slice(), "profiles are loaded"),
    }
}

/// The SELinux mode `getenforce` printed, when it ran and succeeded.
pub fn selinux_mode(output: Option<&str>) -> (res: Option<String>)
    ensures
        match output {
            Some(o) => res matches Some(m) && m@ == trim(o@),
            None => res is None,
        },
{
    match output {
        Some(o) => {
            let t = trimmed(chars_of(o).as_slice());
            let mut s = String::new();
            crate::text::push_chars(&mut s, t.as_slice());
            Some(s)
        },
        None => None,
    }
}

/// The active Linux firewall, from the outputs of `ufw status`,
/// `firewall-cmd --state` and `iptables -L -n` (each there only when the
/// tool succeeded): the first that shows one in force, or nothing.
pub open spec fn linux_firewall_text(
    ufw: Option<Seq<char>>,
    firewalld: Option<Seq<char>>,
    iptables: Option<Seq<char>>,
) -> Seq<char> {
    if ufw matches Some(u) && contains(u, "Status: active"@) {
        "ufw (active)"@
    } else if firewalld matches Some(f) && trim(f) == "running"@ {
        "firewalld (running)"@
    } else if iptables matches Some(t) && t.len() > 0 && !contains(t, "Chain INPUT (policy ACCEPT)"@) {
        "iptables (configured)"@
    } else {
        ""@
    }
}

/// The active Linux firewall, as the security check names it.
pub fn linux_firewall(ufw: Option<&str>, firewalld: Option<&str>, iptables: Option<&str>) -> (res: String)
    ensures
        res@ == linux_firewall_text(out_view(ufw), out_view(firewalld), out_view(iptables)),
{
    if let Some(u) = ufw {
        if holds(chars_of(u).as_slice(), "Status: active") {
            return owned("ufw (active)");
        }
    }
    if let Some(f) = firewalld {
        let t = trimmed(chars_of(f).as_slice());
        let w = chars_of("running");
        proof {
            reveal_strlit("running");
        }
        if crate::text::same_chars(t.as_slice(), w.as_slice()) {
            return owned("firewalld (running)");
        }
    }
    if let Some(t) = iptables {
        let c = chars_of(t);
        if c.len() > 0 && !holds(c.as_slice(), "Chain INPUT (policy ACCEPT)") {
            return owned("iptables (configured)");
        }
    }
    proof {
        reveal_strlit("");
    }
    owned("")
}

/// The lines one probe's finding adds: those for in force, those for not,
/// and those for a finding that could not be made.
pub open spec fn finding_lines(
    found: Option<bool>,
    on: Seq<(LogLevel, Seq<char>)>,
    off: Seq<(LogLevel, Seq<char>)>,
    unknown: Seq<(LogLevel, Seq<char>)>,
) -> Seq<(LogLevel, Seq<char>)> {
    match found {
        Some(true) => on,
        Some(false) => off,
        None => unknown,
    }
}

/// What the Windows security check logs, once the elevation check has run.
pub open spec fn windows_security_lines(
    elevated: bool,
    needs_privileged: bool,
    firewall: Option<bool>,
    defender: Option<bool>,
) -> Seq<(LogLevel, Seq<char>)> {
    (if elevated {
        seq![(LogLevel::Info, "Running with administrator privileges"@)]
    } else {
        seq![(LogLevel::Info, "Running without administrator privileges"@)] + if needs_privileged {
            seq![
                (LogLevel::Warn, "Application may need administrator privileges for ports < 1024"@),
                (LogLevel::Warn, "Consider running as administrator or using alternative ports"@),
            ]
        } else {
            Seq::empty()
        }
    }) + finding_lines(
        firewall,
        seq![
            (LogLevel::Info, "Windows Firewall is enabled"@),
            (LogLevel::Info, "You may need to allow VuIO through the firewall"@),
        ],
        seq![(LogLevel::Info, "Windows Firewall is disabled"@)],
        seq![(LogLevel::Warn, "Could not determine Windows Firewall status"@)],
    ) + finding_lines(
        defender,
        seq![
            (LogLevel::Info, "Windows Defender is active"@),
            (LogLevel::Info, "Real-time protection may scan media files during serving"@),
        ],
        Seq::empty(),
        seq![(LogLevel::Warn, "Could not determine Windows Defender status"@)],
    )
}

/// What the macOS security check logs, once the elevation check has run.
pub open spec fn macos_security_lines(
    elevated: bool,
    firewall: Option<bool>,
    gatekeeper: Option<bool>,
    sip: Option<bool>,
) -> Seq<(LogLevel, Seq<char>)> {
    (if elevated {
        seq![
            (LogLevel::Warn, "Running with elevated privileges (sudo)"@),
            (LogLevel::Warn, "Consider running without sudo for better security"@),
        ]
    } else {
        seq![(LogLevel::Info, "Running with normal user privileges"@)]
    }) + finding_lines(
        firewall,
        seq![
            (LogLevel::Info, "macOS Application Firewall is enabled"@),
            (LogLevel::Info, "System may prompt for network access permissions"@),
        ],
        seq![(LogLevel::Info, "macOS Application Firewall is disabled"@)],
        seq![(LogLevel::Warn, "Could not determine macOS Application Firewall status"@)],
    ) + finding_lines(
        gatekeeper,
        seq![(LogLevel::Info, "Gatekeeper is enabled - application security is enforced"@)],
        seq![(LogLevel::Warn, "Gatekeeper is disabled - reduced security"@)],
        seq![(LogLevel::Warn, "Could not determine Gatekeeper status"@)],
    ) + finding_lines(
        sip,
        seq![(LogLevel::Info, "System Integrity Protection (SIP) is enabled"@)],
        seq![(LogLevel::Warn, "System Integrity Protection (SIP) is disabled"@)],
        seq![(LogLevel::Warn, "Could not determine SIP status"@)],
    )
}

/// What the SELinux mode adds to the Linux security check.
pub open spec fn selinux_lines(mode: Option<Seq<char>>) -> Seq<(LogLevel, Seq<char>)> {
    match mode {
        None => seq![(LogLevel::Info, "SELinux not detected or not available"@)],
        Some(m) => if m == "Enforcing"@ {
            seq![
                (LogLevel::Info, "SELinux is in enforcing mode"@),
                (LogLevel::Warn, "SELinux policies may restrict network and file access"@),
            ]
        } else if m == "Permissive"@ {
            seq![
                (LogLevel::Info, "SELinux is in permissive mode"@),
                (LogLevel::Info, "SELinux violations will be logged but not enforced"@),
            ]
        } else if m == "Disabled"@ {
            seq![(LogLevel::Info, "SELinux is disabled"@)]
        } else {
            seq![(LogLevel::Warn, "Unknown SELinux status: "@ + m)]
        },
    }
}

/// What the firewall adds to the Linux security check.
pub open spec fn linux_firewall_lines(firewall: Option<Seq<char>>) -> Seq<(LogLevel, Seq<char>)> {
    match firewall {
        None => seq![(LogLevel::Warn, "Could not determine firewall status"@)],
        Some(f) => if f.len() > 0 {
            seq![
                (LogLevel::Info, "Firewall detected: "@ + f),
                (LogLevel::Warn, "Firewall rules may block network connections"@),
            ]
        } else {
            seq![(LogLevel::Info, "No active firewall detected"@)]
        },
    }
}

/// What the Linux security check logs, once the root check has run. The
/// capability finding counts only for a user other than root who needs
/// privileged ports, and adds nothing when it could not be made.
pub open spec fn linux_security_lines(
    root: bool,
    needs_privileged: bool,
    bind_capability: Option<bool>,
    selinux: Option<Seq<char>>,
    apparmor: Option<bool>,
    firewall: Option<Seq<char>>,
) -> Seq<(LogLevel, Seq<char>)> {
    (if root {
        seq![
            (LogLevel::Warn, "Running as root user"@),
            (LogLevel::Warn, "Consider running as a non-root user for better security"@),
            (LogLevel::Warn, "Use capabilities or systemd for privileged port access"@),
        ]
    } else {
        seq![(LogLevel::Info, "Running as non-root user"@)] + if needs_privileged {
            finding_lines(
                bind_capability,
                seq![(LogLevel::Info, "CAP_NET_BIND_SERVICE capability available for privileged ports"@)],
                seq![(LogLevel::Warn, "No capability for privileged ports - may need root or systemd"@)],
                Seq::empty(),
            )
        } else {
            Seq::empty()
        }
    }) + selinux_lines(selinux) + finding_lines(
        apparmor,
        seq![
            (LogLevel::Info, "AppArmor is enabled"@),
            (LogLevel::Warn, "AppArmor profiles may restrict application behavior"@),
        ],
        seq![(LogLevel::Info, "AppArmor is not active"@)],
        seq![(LogLevel::Info, "AppArmor not detected or not available"@)],
    ) + linux_firewall_lines(firewall)
}

fn line(level: LogLevel, text: &str) -> (res: (LogLevel, String))
    ensures
        res.0 == level,
        res.1@ == text@,
{
    (level, owned(text))
}

fn push_finding(
    v: &mut Vec<(LogLevel, String)>,
    found: Option<bool>,
    on: Vec<(LogLevel, String)>,
    off: Vec<(LogLevel, String)>,
    unknown: Vec<(LogLevel, String)>,
)
    ensures
        log_views(final(v)@) == log_views(old(v)@) + finding_lines(
            found,
            log_views(on@),
            log_views(off@),
            log_views(unknown@),
        ),
{
    let mut add = match found {
        Some(true) => on,
        Some(false) => off,
        None => unknown,
    };
    let ghost before = log_views(v@);
    let ghost added = log_views(add@);
    v.append(&mut add);
    proof {
        assert(log_views(v@) =~= before + added);
    }
}

/// The lines the Windows security check logs once the elevation check has
/// run, given what the other probes found (`None` where one could not be
/// made).
pub fn windows_security_report(
    elevated: bool,
    needs_privileged: bool,
    firewall: Option<bool>,
    defender: Option<bool>,
) -> (res: Vec<(LogLevel, String)>)
    ensures
        log_views(res@) == windows_security_lines(elevated, needs_privileged, firewall, defender),
{
    let mut v: Vec<(LogLevel, String)> = Vec::new();
    if elevated {
        v.push(line(LogLevel::Info, "Running with administrator privileges"));
    } else {
        v.push(line(LogLevel::Info, "Running without administrator privileges"));
        if needs_privileged {
            v.push(line(LogLevel::Warn, "Application may need administrator privileges for ports < 1024"));
            v.push(line(LogLevel::Warn, "Consider running as administrator or using alternative ports"));
        }
    }
    let ghost first = log_views(v@);
    push_finding(
        &mut v,
        firewall,
        vec![
            line(LogLevel::Info, "Windows Firewall is enabled"),
            line(LogLevel::Info, "You may need to allow VuIO through the firewall"),
        ],
        vec![line(LogLevel::Info, "Windows Firewall is disabled")],
        vec![line(LogLevel::Warn, "Could not determine Windows Firewall status")],
    );
    push_finding(
        &mut v,
        defender,
        vec![
            line(LogLevel::Info, "Windows Defender is active"),
            line(LogLevel::Info, "Real-time protection may scan media files during serving"),
        ],
        Vec::new(),
        vec![line(LogLevel::Warn, "Could not determine Windows Defender status")],
    );
    proof {
        let e: Seq<(LogLevel, Seq<char>)> = Seq::empty();
        assert(first =~= if elevated {
            seq![(LogLevel::Info, "Running with administrator privileges"@)]
        } else {
            seq![(LogLevel::Info, "Running without administrator privileges"@)] + if needs_privileged {
                seq![
                    (LogLevel::Warn, "Application may need administrator privileges for ports < 1024"@),
                    (LogLevel::Warn, "Consider running as administrator or using alternative ports"@),
                ]
            } else {
                e
            }
        });
    }
    v
}

/// The lines the macOS security check logs once the elevation check has
/// run, given what the other probes found (`None` where one could not be
/// made).
pub fn macos_security_report(
    elevated: bool,
    firewall: Option<bool>,
    gatekeeper: Option<bool>,
    sip: Option<bool>,
) -> (res: Vec<(LogLevel, String)>)
    ensures
        log_views(res@) == macos_security_lines(elevated, firewall, gatekeeper, sip),
{
    let mut v: Vec<(LogLevel, String)> = Vec::new();
    if elevated {
        v.push(line(LogLevel::Warn, "Running with elevated privileges (sudo)"));
        v.push(line(LogLevel::Warn, "Consider running without sudo for better security"));
    } else {
        v.push(line(LogLevel::Info, "Running with normal user privileges"));
    }
    push_finding(
        &mut v,
        firewall,
        vec![
            line(LogLevel::Info, "macOS Application Firewall is enabled"),
            line(LogLevel::Info, "System may prompt for network access permissions"),
        ],
        vec![line(LogLevel::Info, "macOS Application Firewall is disabled")],
        vec![line(LogLevel::Warn, "Could not determine macOS Application Firewall status")],
    );
    push_finding(
        &mut v,
        gatekeeper,
        vec![line(LogLevel::Info, "Gatekeeper is enabled - application security is enforced")],
        vec![line(LogLevel::Warn, "Gatekeeper is disabled - reduced security")],
        vec![line(LogLevel::Warn, "Could not determine Gatekeeper status")],
    );
    push_finding(
        &mut v,
        sip,
        vec![line(LogLevel::Info, "System Integrity Protection (SIP) is enabled")],
        vec![line(LogLevel::Warn, "System Integrity Protection (SIP) is disabled")],
        vec![line(LogLevel::Warn, "Could not determine SIP status")],
    );
    v
}

fn push_selinux(v: &mut Vec<(LogLevel, String)>, mode: &Option<String>)
    ensures
        log_views(final(v)@) == log_views(old(v)@) + selinux_lines(
            match mode {
                Some(m) => Some(m@),
                None => None,
            },
        ),
{
    let ghost before = log_views(v@);
    match mode {
        None => {
            v.push(line(LogLevel::Info, "SELinux not detected or not available"));
        },
        Some(m) => {
            let c = chars_of(m.as_str());
            let (e, p, d) = (chars_of("Enforcing"), chars_of("Permissive"), chars_of("Disabled"));
            proof {
                reveal_strlit("Enforcing");
                reveal_strlit("Permissive");
                reveal_strlit("Disabled");
            }
            if crate::text::same_chars(c.as_slice(), e.as_slice()) {
                v.push(line(LogLevel::Info, "SELinux is in enforcing mode"));
                v.push(line(LogLevel::Warn, "SELinux policies may restrict network and file access"));
            } else if crate::text::same_chars(c.as_slice(), p.as_slice()) {
                v.push(line(LogLevel::Info, "SELinux is in permissive mode"));
                v.push(line(LogLevel::Info, "SELinux violations will be logged but not enforced"));
            } else if crate::text::same_chars(c.as_slice(), d.as_slice()) {
                v.push(line(LogLevel::Info, "SELinux is disabled"));
            } else {
                let mut t = owned("Unknown SELinux status: ");
                push_str(&mut t, m.as_str());
                v.push((LogLevel::Warn, t));
            }
        },
    }
    proof {
        assert(log_views(v@) =~= before + selinux_lines(
            match mode {
                Some(m) => Some(m@),
                None => None,
            },
        ));
    }
}

fn push_linux_firewall(v: &mut Vec<(LogLevel, String)>, firewall: &Option<String>)
    ensures
        log_views(final(v)@) == log_views(old(v)@) + linux_firewall_lines(
            match firewall {
                Some(f) => Some(f@),
                None => None,
            },
        ),
{
    let ghost before = log_views(v@);
    match firewall {
        None => {
            v.push(line(LogLevel::Warn, "Could not determine firewall status"));
        },
        Some(f) => {
            if f.as_str().unicode_len() > 0 {
                let mut t = owned("Firewall detected: ");
                push_str(&mut t, f.as_str());
                v.push((LogLevel::Info, t));
                v.push(line(LogLevel::Warn, "Firewall rules may block network connections"));
            } else {
                v.push(line(LogLevel::Info, "No active firewall detected"));
            }
        },
    }
    proof {
        assert(log_views(v@) =~= before + linux_firewall_lines(
            match firewall {
                Some(f) => Some(f@),
                None => None,
            },
        ));
    }
}

/// The lines the Linux security check logs once the root check has run,
/// given what the other probes found (`None` where one could not be made).
pub fn linux_security_report(
    root: bool,
    needs_privileged: bool,
    bind_capability: Option<bool>,
    selinux: Option<String>,
    apparmor: Option<bool>,
    firewall: Option<String>,
) -> (res: Vec<(LogLevel, String)>)
    ensures
        log_views(res@) == linux_security_lines(
            root,
            needs_privileged,
            bind_capability,
            match selinux {
                Some(m) => Some(m@),
                None => None,
            },
            apparmor,
            match firewall {
                Some(f) => Some(f@),
                None => None,
            },
        ),
{
    let mut v: Vec<(LogLevel, String)> = Vec::new();
    if root {
        v.push(line(LogLevel::Warn, "Running as root user"));
        v.push(line(LogLevel::Warn, "Consider running as a non-root user for better security"));
        v.push(line(LogLevel::Warn, "Use capabilities or systemd for privileged port access"));
    } else {
        v.push(line(LogLevel::Info, "Running as non-root user"));
        if needs_privileged {
            push_finding(
                &mut v,
                bind_capability,
                vec![line(LogLevel::Info, "CAP_NET_BIND_SERVICE capability available for privileged ports")],
                vec![line(LogLevel::Warn, "No capability for privileged ports - may need root or systemd")],
                Vec::new(),
            );
        }
    }
    let ghost first = log_views(v@);
    push_selinux(&mut v, &selinux);
    push_finding(
        &mut v,
        apparmor,
        vec![
            line(LogLevel::Info, "AppArmor is enabled"),
            line(LogLevel::Warn, "AppArmor profiles may restrict application behavior"),
        ],
        vec![line(LogLevel::Info, "AppArmor is not active")],
        vec![line(LogLevel::Info, "AppArmor not detected or not available")],
    );
    push_linux_firewall(&mut v, &firewall);
    proof {
        let e: Seq<(LogLevel, Seq<char>)> = Seq::empty();
        assert(first =~= if root {
            seq![
                (LogLevel::Warn, "Running as root user"@),
                (LogLevel::Warn, "Consider running as a non-root user for better security"@),
                (LogLevel::Warn, "Use capabilities or systemd for privileged port access"@),
            ]
        } else {
            seq![(LogLevel::Info, "Running as non-root user"@)] + if needs_privileged {
                finding_lines(
                    bind_capability,
                    seq![(LogLevel::Info, "CAP_NET_BIND_SERVICE capability available for privileged ports"@)],
                    seq![(LogLevel::Warn, "No capability for privileged ports - may need root or systemd"@)],
                    e,
                )
            } else {
                e
            }
        });
    }
    v
}

/// How a boolean is written (`true` or `false`).
pub open spec fn flag_text(b: bool) -> Seq<char> {
    if b {
        "true"@
    } else {
        "false"@
    }
}

/// How the platform report names an interface type: the name of its kind,
/// or for `Other` its description.
pub open spec fn kind_label(k: InterfaceKind) -> Seq<char> {
    match k {
        InterfaceKind::Ethernet => "Ethernet"@,
        InterfaceKind::WiFi => "WiFi"@,
        InterfaceKind::VPN => "VPN"@,
        InterfaceKind::Loopback => "Loopback"@,
        InterfaceKind::Other(n) => n,
    }
}

/// The report's line for one interface.
pub open spec fn interface_line(i: InterfaceView) -> (LogLevel, Seq<char>) {
    (
        LogLevel::Info,
        "  - "@ + i.name + " ("@ + kind_label(i.kind) + "): "@ + i.ip_address.text() + " - Up: "@ + flag_text(i.is_up)
            + ", Multicast: "@ + flag_text(i.supports_multicast),
    )
}

/// The report's lines for the interfaces, in order.
pub open spec fn interface_lines(s: Seq<InterfaceView>) -> Seq<(LogLevel, Seq<char>)> {
    s.map_values(|i: InterfaceView| interface_line(i))
}

/// The report's line on the primary interface, the one DLNA traffic uses.
pub open spec fn primary_line(s: Seq<InterfaceView>) -> (LogLevel, Seq<char>) {
    if any_suitable(s) {
        let p = s[choose|i: int| is_primary_at(s, i)];
        (LogLevel::Info, "Primary network interface: "@ + p.name + " ("@ + p.ip_address.text() + ")"@)
    } else {
        (LogLevel::Warn, "No suitable primary network interface found for DLNA operations"@)
    }
}

/// The lines on what a platform may get in the way of.
pub open spec fn platform_notes(os: OsType, caps: PlatformCapabilities) -> Seq<(LogLevel, Seq<char>)> {
    let e: Seq<(LogLevel, Seq<char>)> = Seq::empty();
    match os {
        OsType::Windows => seq![(LogLevel::Info, "Windows-specific diagnostics:"@)] + (if !caps.can_bind_privileged_ports {
            seq![(LogLevel::Info, "  - Administrator privileges may be required for ports < 1024"@)]
        } else {
            e
        }) + if caps.has_firewall {
            seq![(LogLevel::Info, "  - Windows Firewall may block network connections"@)]
        } else {
            e
        },
        OsType::MacOS => seq![
            (LogLevel::Info, "macOS-specific diagnostics:"@),
            (LogLevel::Info, "  - System may prompt for network access permissions"@),
        ] + if caps.has_firewall {
            seq![(LogLevel::Info, "  - macOS Application Firewall may block connections"@)]
        } else {
            e
        },
        OsType::Linux => seq![(LogLevel::Info, "Linux-specific diagnostics:"@)] + (if caps.has_firewall {
            seq![(LogLevel::Info, "  - Firewall (iptables/ufw/firewalld) may block connections"@)]
        } else {
            e
        }) + seq![(LogLevel::Info, "  - SELinux/AppArmor policies may affect file access"@)],
    }
}

/// What is logged of a detected platform on a machine of architecture
/// `arch`.
pub open spec fn detection_lines(
    os: OsType,
    version: Seq<char>,
    arch: Seq<char>,
    caps: PlatformCapabilities,
    s: Seq<InterfaceView>,
) -> Seq<(LogLevel, Seq<char>)> {
    seq![
        (LogLevel::Info, "Platform: "@ + os.display_name_spec() + " "@ + version),
        (LogLevel::Info, "Architecture: "@ + arch),
        (LogLevel::Info, "Platform capabilities:"@),
        (LogLevel::Info, "  - Multicast support: "@ + flag_text(caps.supports_multicast)),
        (LogLevel::Info, "  - Firewall present: "@ + flag_text(caps.has_firewall)),
        (LogLevel::Info, "  - Case-sensitive filesystem: "@ + flag_text(caps.case_sensitive_fs)),
    ] + (if s.len() == 0 {
        seq![(LogLevel::Warn, "No network interfaces detected - network functionality may be limited"@)]
    } else {
        seq![(LogLevel::Info, "Detected "@ + decimal(s.len()) + " network interface(s):"@)] + interface_lines(s)
            + seq![primary_line(s)]
    }) + platform_notes(os, caps)
}

/// Only one position holds the primary interface.
pub(crate) proof fn lemma_primary_unique(s: Seq<InterfaceView>, i: int, j: int)
    requires
        is_primary_at(s, i),
        is_primary_at(s, j),
    ensures
        i == j,
{
    if i < j {
        assert(s[j].kind.rank() < s[i].kind.rank());
    } else if j < i {
        assert(s[i].kind.rank() < s[j].kind.rank());
    }
}

pub(crate) fn push_flag(t: &mut String, b: bool)
    ensures
        final(t)@ == old(t)@ + flag_text(b),
{
    if b {
        push_str(t, "true");
    } else {
        push_str(t, "false");
    }
}

pub(crate) fn labelled_flag(label: &str, b: bool) -> (res: (LogLevel, String))
    ensures
        res.0 == LogLevel::Info,
        res.1@ == label@ + flag_text(b),
{
    let mut t = owned(label);
    push_flag(&mut t, b);
    (LogLevel::Info, t)
}

fn render_interface_line(i: &NetworkInterface) -> (res: (LogLevel, String))
    ensures
        (res.0, res.1@) == interface_line(i@),
{
    let mut t = owned("  - ");
    push_str(&mut t, i.name.as_str());
    push_str(&mut t, " (");
    match &i.interface_type {
        InterfaceType::Ethernet => push_str(&mut t, "Ethernet"),
        InterfaceType::WiFi => push_str(&mut t, "WiFi"),
        InterfaceType::VPN => push_str(&mut t, "VPN"),
        InterfaceType::Loopback => push_str(&mut t, "Loopback"),
        InterfaceType::Other(n) => push_str(&mut t, n.as_str()),
    }
    push_str(&mut t, "): ");
    let ip = i.ip_address.to_text();
    push_str(&mut t, ip.as_str());
    push_str(&mut t, " - Up: ");
    push_flag(&mut t, i.is_up);
    push_str(&mut t, ", Multicast: ");
    push_flag(&mut t, i.supports_multicast);
    (LogLevel::Info, t)
}

fn push_platform_notes(v: &mut Vec<(LogLevel, String)>, os: OsType, caps: &PlatformCapabilities)
    ensures
        log_views(final(v)@) == log_views(old(v)@) + platform_notes(os, *caps),
{
    let ghost before = log_views(v@);
    match os {
        OsType::Windows => {
            v.push(line(LogLevel::Info, "Windows-specific diagnostics:"));
            if !caps.can_bind_privileged_ports {
                v.push(line(LogLevel::Info, "  - Administrator privileges may be required for ports < 1024"));
            }
            if caps.has_firewall {
                v.push(line(LogLevel::Info, "  - Windows Firewall may block network connections"));
            }
        },
        OsType::MacOS => {
            v.push(line(LogLevel::Info, "macOS-specific diagnostics:"));
            v.push(line(LogLevel::Info, "  - System may prompt for network access permissions"));
            if caps.has_firewall {
                v.push(line(LogLevel::Info, "  - macOS Application Firewall may block connections"));
            }
        },
        OsType::Linux => {
            v.push(line(LogLevel::Info, "Linux-specific diagnostics:"));
            if caps.has_firewall {
                v.push(line(LogLevel::Info, "  - Firewall (iptables/ufw/firewalld) may block connections"));
            }
            v.push(line(LogLevel::Info, "  - SELinux/AppArmor policies may affect file access"));
        },
    }
    proof {
        assert(log_views(v@) =~= before + platform_notes(os, *caps));
    }
}

/// The lines logged of a detected platform on a machine of architecture
/// `arch`: the platform and its capabilities, its interfaces and the
/// primary one, and what the platform may get in the way of.
pub fn platform_detection_report(info: &PlatformInfo, arch: &str) -> (res: Vec<(LogLevel, String)>)
    ensures
        log_views(res@) == detection_lines(
            info.os_type,
            info.version@,
            arch@,
            info.capabilities,
            interface_views(info.network_interfaces@),
        ),
{
    let ghost s = interface_views(info.network_interfaces@);
    let mut v: Vec<(LogLevel, String)> = Vec::new();
    let mut head = owned("Platform: ");
    push_str(&mut head, info.os_type.display_name());
    push_str(&mut head, " ");
    push_str(&mut head, info.version.as_str());
    v.push((LogLevel::Info, head));
    let mut a = owned("Architecture: ");
    push_str(&mut a, arch);
    v.push((LogLevel::Info, a));
    v.push(line(LogLevel::Info, "Platform capabilities:"));
    v.push(labelled_flag("  - Multicast support: ", info.capabilities.supports_multicast));
    v.push(labelled_flag("  - Firewall present: ", info.capabilities.has_firewall));
    v.push(labelled_flag("  - Case-sensitive filesystem: ", info.capabilities.case_sensitive_fs));
    let ghost top = log_views(v@);
    let n = info.network_interfaces.len();
    if n == 0 {
        v.push(line(LogLevel::Warn, "No network interfaces detected - network functionality may be limited"));
        proof {
            assert(log_views(v@) =~= top + seq![
                (LogLevel::Warn, "No network interfaces detected - network functionality may be limited"@),
            ]);
        }
    } else {
        let mut d = owned("Detected ");
        push_decimal(&mut d, n as u64);
        push_str(&mut d, " network interface(s):");
        let ghost count_line = (LogLevel::Info, d@);
        assert(count_line == (LogLevel::Info, "Detected "@ + decimal(s.len()) + " network interface(s):"@));
        v.push((LogLevel::Info, d));
        let ghost with_count = log_views(v@);
        assert(with_count =~= top.push(count_line));
        let mut k: usize = 0;
        while k < n
            invariant
                k <= n,
                n == info.network_interfaces@.len(),
                s == interface_views(info.network_interfaces@),
                log_views(v@) == with_count + interface_lines(s.subrange(0, k as int)),
            decreases n - k,
        {
            let l = render_interface_line(&info.network_interfaces[k]);
            let ghost prev = log_views(v@);
            v.push(l);
            proof {
                assert(s.subrange(0, k + 1) =~= s.subrange(0, k as int).push(s[k as int]));
                assert(interface_lines(s.subrange(0, k + 1)) =~= interface_lines(s.subrange(0, k as int)).push(
                    interface_line(s[k as int]),
                ));
                assert(log_views(v@) =~= prev.push((l.0, l.1@)));
            }
            k = k + 1;
        }
        proof {
            assert(s.subrange(0, n as int) =~= s);
        }
        let ghost listed = log_views(v@);
        match primary_interface_index(&info.network_interfaces) {
            Some(p) => {
                let iface = &info.network_interfaces[p];
                let mut t = owned("Primary network interface: ");
                push_str(&mut t, iface.name.as_str());
                push_str(&mut t, " (");
                let ip = iface.ip_address.to_text();
                push_str(&mut t, ip.as_str());
                push_str(&mut t, ")");
                proof {
                    let c = choose|i: int| is_primary_at(s, i);
                    lemma_primary_unique(s, c, p as int);
                    assert(s[p as int] == iface@);
                    assert((LogLevel::Info, t@) == primary_line(s));
                }
                v.push((LogLevel::Info, t));
            },
            None => {
                v.push(line(LogLevel::Warn, "No suitable primary network interface found for DLNA operations"));
            },
        }
        proof {
            assert(log_views(v@) =~= listed.push(primary_line(s)));
            assert(log_views(v@) =~= top + (seq![count_line] + interface_lines(s) + seq![primary_line(s)]));
        }
    }
    let ghost middle = log_views(v@);
    push_platform_notes(&mut v, info.os_type, &info.capabilities);
    proof {
        assert(middle =~= top + if s.len() == 0 {
            seq![(LogLevel::Warn, "No network interfaces detected - network functionality may be limited"@)]
        } else {
            seq![(LogLevel::Info, "Detected "@ + decimal(s.len()) + " network interface(s):"@)] + interface_lines(s)
                + seq![primary_line(s)]
        });
    }
    v
}

} // verus!
