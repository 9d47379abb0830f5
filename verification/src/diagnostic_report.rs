//! The parts of a diagnostic report that follow from what is already known
//! of the platform: its capabilities, its interfaces as a report lists them,
//! and the checks made before the server starts. Reading directories,
//! probing ports and writing the report are left to the caller.
use vstd::prelude::*;

use crate::config::host_name;
use crate::debug_fmt::{debug_str, push_debug_str};
use crate::platform::{
    interface_views, InterfaceKind, InterfaceType, InterfaceView, NetworkInterface, OsType, PlatformCapabilities,
    PlatformInfo,
};
use crate::platform_error::PlatformError;
use crate::platform_config::pair_views;
use crate::text::{owned, push_str};

verus! {

/// What a database integrity check found.
#[derive(Debug, Clone)]
pub enum DatabaseIntegrityStatus {
    Healthy,
    Corrupted { details: String },
    Unknown,
    NotChecked,
}

/// The capabilities of the platform, as a report lists them.
#[derive(Debug, Clone, Copy, PartialEq, Eq, Structural)]
pub struct PlatformCapabilitiesDiag {
    pub can_bind_privileged_ports: bool,
    pub supports_multicast: bool,
    pub has_firewall: bool,
    pub case_sensitive_fs: bool,
    pub supports_network_paths: bool,
    pub requires_network_permissions: bool,
}

impl PlatformCapabilitiesDiag {
    /// The report's copy of the platform's capabilities.
    pub fn from_capabilities(c: &PlatformCapabilities) -> (res: PlatformCapabilitiesDiag)
        ensures
            res.can_bind_privileged_ports == c.can_bind_privileged_ports,
            res.supports_multicast == c.supports_multicast,
            res.has_firewall == c.has_firewall,
            res.case_sensitive_fs == c.case_sensitive_fs,
            res.supports_network_paths == c.supports_network_paths,
            res.requires_network_permissions == c.requires_network_permissions,
    {
        PlatformCapabilitiesDiag {
            can_bind_privileged_ports: c.can_bind_privileged_ports,
            supports_multicast: c.supports_multicast,
            has_firewall: c.has_firewall,
            case_sensitive_fs: c.case_sensitive_fs,
            supports_network_paths: c.supports_network_paths,
            requires_network_permissions: c.requires_network_permissions,
        }
    }
}

/// The platform part of a report.
#[derive(Debug, Clone)]
pub struct PlatformDiagnostics {
    pub os_type: String,
    pub os_version: String,
    pub architecture: String,
    pub hostname: String,
    pub capabilities: PlatformCapabilitiesDiag,
    pub platform_specific: Vec<(String, String)>,
}

/// One network interface, as a report lists it.
#[derive(Debug, Clone)]
pub struct NetworkInterfaceDiag {
    pub name: String,
    pub ip_address: String,
    pub is_loopback: bool,
    pub is_up: bool,
    pub supports_multicast: bool,
    pub interface_type: String,
    pub mtu: Option<u32>,
    pub speed: Option<u64>,
}

/// One directory, as a report lists it.
#[derive(Debug, Clone)]
pub struct DirectoryDiag {
    pub path: String,
    pub exists: bool,
    pub accessible: bool,
    pub readable: bool,
    pub writable: bool,
    pub file_count: Option<u64>,
    pub total_size: Option<u64>,
    pub free_space: Option<u64>,
    pub permissions: Option<String>,
}

/// The directories part of a report.
#[derive(Debug, Clone)]
pub struct FilesystemDiagnostics {
    pub monitored_directories: Vec<DirectoryDiag>,
    pub config_directory: DirectoryDiag,
    pub cache_directory: DirectoryDiag,
    pub log_directory: DirectoryDiag,
    pub temp_directory: DirectoryDiag,
}

/// The configuration part of a report.
#[derive(Debug, Clone)]
pub struct ConfigurationDiagnostics {
    pub config_file_path: Option<String>,
    pub config_file_exists: bool,
    pub config_file_valid: bool,
    pub config_errors: Vec<String>,
    pub hot_reload_enabled: bool,
    pub default_values_used: Vec<String>,
}

/// How an interface type is written in a report: the name of its kind, and
/// for `Other` its description quoted, as `Debug` writes them.
pub open spec fn interface_type_text(k: InterfaceKind) -> Seq<char> {
    match k {
        InterfaceKind::Ethernet => "Ethernet"@,
        InterfaceKind::WiFi => "WiFi"@,
        InterfaceKind::VPN => "VPN"@,
        InterfaceKind::Loopback => "Loopback"@,
        InterfaceKind::Other(d) => "Other("@ + debug_str(d) + ")"@,
    }
}

/// What a report lists of an interface.
pub open spec fn interface_diag_matches(d: NetworkInterfaceDiag, i: InterfaceView) -> bool {
    &&& d.name@ == i.name
    &&& d.ip_address@ == i.ip_address.text()
    &&& d.is_loopback == i.is_loopback
    &&& d.is_up == i.is_up
    &&& d.supports_multicast == i.supports_multicast
    &&& d.interface_type@ == interface_type_text(i.kind)
    &&& d.mtu is None
    &&& d.speed is None
}

pub(crate) fn render_interface_type(t: &InterfaceType) -> (res: String)
    ensures
        res@ == interface_type_text(t@),
{
    match t {
        InterfaceType::Ethernet => owned("Ethernet"),
        InterfaceType::WiFi => owned("WiFi"),
        InterfaceType::VPN => owned("VPN"),
        InterfaceType::Loopback => owned("Loopback"),
        InterfaceType::Other(d) => {
            let mut s = owned("Other(");
            push_debug_str(&mut s, d.as_str());
            push_str(&mut s, ")");
            s
        },
    }
}

impl NetworkInterfaceDiag {
    /// The report's entry for an interface; its MTU and speed are not
    /// measured.
    pub fn from_interface(i: &NetworkInterface) -> (res: NetworkInterfaceDiag)
        ensures
            interface_diag_matches(res, i@),
    {
        NetworkInterfaceDiag {
            name: i.name.clone(),
            ip_address: i.ip_address.to_text(),
            is_loopback: i.is_loopback,
            is_up: i.is_up,
            supports_multicast: i.supports_multicast,
            interface_type: render_interface_type(&i.interface_type),
            mtu: None,
            speed: None,
        }
    }
}

/// The report's entries for the platform's interfaces, in order, and the
/// name of the primary interface, if there is one.
pub fn interface_diagnostics(info: &PlatformInfo) -> (res: (Vec<NetworkInterfaceDiag>, Option<String>))
    ensures
        res.0@.len() == info.network_interfaces@.len(),
        forall|k: int|
            0 <= k < res.0@.len() ==> interface_diag_matches(#[trigger] res.0@[k], info.network_interfaces@[k]@),
        res.1 is None <==> !crate::platform::any_suitable(interface_views(info.network_interfaces@)),
        res.1 matches Some(n) ==> exists|i: int|
            crate::platform::is_primary_at(interface_views(info.network_interfaces@), i) && n@
                == info.network_interfaces@[i].name@,
{
    let mut v: Vec<NetworkInterfaceDiag> = Vec::new();
    let mut k: usize = 0;
    while k < info.network_interfaces.len()
        invariant
            k <= info.network_interfaces@.len(),
            v@.len() == k,
            forall|j: int| 0 <= j < k ==> interface_diag_matches(#[trigger] v@[j], info.network_interfaces@[j]@),
        decreases info.network_interfaces@.len() - k,
    {
        v.push(NetworkInterfaceDiag::from_interface(&info.network_interfaces[k]));
        k = k + 1;
    }
    let primary = match info.get_primary_interface() {
        Some(p) => Some(p.name.clone()),
        None => None,
    };
    (v, primary)
}

fn copy_pairs(m: &Vec<(String, String)>) -> (res: Vec<(String, String)>)
    ensures
        res@ == m@,
{
    let mut r: Vec<(String, String)> = Vec::new();
    let mut k: usize = 0;
    while k < m.len()
        invariant
            k <= m@.len(),
            r@ =~= m@.subrange(0, k as int),
        decreases m@.len() - k,
    {
        r.push((m[k].0.clone(), m[k].1.clone()));
        k = k + 1;
    }
    proof {
        assert(m@.subrange(0, m@.len() as int) =~= m@);
    }
    r
}

/// What the platform part of a report holds, given the machine's
/// architecture and host name.
pub open spec fn platform_diag_matches(d: PlatformDiagnostics, info: PlatformInfo, arch: Seq<char>, host: Seq<char>) -> bool {
    &&& d.os_type@ == info.os_type.display_name_spec()
    &&& d.os_version@ == info.version@
    &&& d.architecture@ == arch
    &&& d.hostname@ == host
    &&& d.capabilities == PlatformCapabilitiesDiag {
        can_bind_privileged_ports: info.capabilities.can_bind_privileged_ports,
        supports_multicast: info.capabilities.supports_multicast,
        has_firewall: info.capabilities.has_firewall,
        case_sensitive_fs: info.capabilities.case_sensitive_fs,
        supports_network_paths: info.capabilities.supports_network_paths,
        requires_network_permissions: info.capabilities.requires_network_permissions,
    }
    &&& pair_views(d.platform_specific@) == pair_views(info.metadata@)
}

impl PlatformDiagnostics {
    /// The platform part of a report on a machine of architecture `arch`
    /// whose host name is `hostname` (`None` when it could not be read,
    /// which the report shows as `unknown`).
    pub fn describe(info: &PlatformInfo, arch: &str, hostname: Option<String>) -> (res: PlatformDiagnostics)
        ensures
            platform_diag_matches(
                res,
                *info,
                arch@,
                match hostname {
                    Some(h) => h@,
                    None => "unknown"@,
                },
            ),
    {
        let host = match hostname {
            Some(h) => h,
            None => owned("unknown"),
        };
        PlatformDiagnostics {
            os_type: owned(info.os_type.display_name()),
            os_version: info.version.clone(),
            architecture: owned(arch),
            hostname: host,
            capabilities: PlatformCapabilitiesDiag::from_capabilities(&info.capabilities),
            platform_specific: copy_pairs(&info.metadata),
        }
    }

    /// The platform part of a report on this machine, of architecture
    /// `arch`, with its host name as far as it can be read.
    pub fn collect(info: &PlatformInfo, arch: &str) -> (res: PlatformDiagnostics)
        ensures
            exists|h: Seq<char>| platform_diag_matches(res, *info, arch@, h),
    {
        let host = match host_name() {
            Some(Ok(h)) => Some(h),
            Some(Err(lossy)) => Some(lossy),
            None => None,
        };
        Self::describe(info, arch, host)
    }
}

/// The interfaces a DLNA service can use: up and not loopback.
pub open spec fn usable_count(s: Seq<InterfaceView>) -> nat
    decreases s.len(),
{
    if s.len() == 0 {
        0
    } else {
        usable_count(s.drop_last()) + if !s.last().is_loopback && s.last().is_up {
            1nat
        } else {
            0nat
        }
    }
}

/// The checks made before the server starts.
pub struct StartupDiagnostics;

impl StartupDiagnostics {
    /// Whether the platform is one the server supports; every platform it
    /// knows is.
    pub fn platform_supported(os: OsType) -> (res: bool)
        ensures
            res,
    {
        match os {
            OsType::Windows | OsType::MacOS | OsType::Linux => true,
        }
    }

    /// The number of interfaces a DLNA service can use, or an error when
    /// there is none.
    pub fn check_network_requirements(info: &PlatformInfo) -> (res: Result<usize, PlatformError>)
        ensures
            match res {
                Ok(n) => n == usable_count(interface_views(info.network_interfaces@)) && n > 0,
                Err(e) => usable_count(interface_views(info.network_interfaces@)) == 0 && (e matches PlatformError::NetworkConfig(m)
                    && m@ == "No active network interfaces available for DLNA service"@),
            },
    {
        let ghost s = interface_views(info.network_interfaces@);
        let mut n: usize = 0;
        let mut k: usize = 0;
        while k < info.network_interfaces.len()
            invariant
                k <= info.network_interfaces@.len(),
                s == interface_views(info.network_interfaces@),
                n == usable_count(s.subrange(0, k as int)),
                n <= k,
            decreases info.network_interfaces@.len() - k,
        {
            let i = &info.network_interfaces[k];
            proof {
                assert(s.subrange(0, k + 1).drop_last() =~= s.subrange(0, k as int));
                assert(s.subrange(0, k + 1).last() == s[k as int]);
            }
            if !i.is_loopback && i.is_up {
                n = n + 1;
            }
            k = k + 1;
        }
        proof {
            assert(s.subrange(0, s.len() as int) =~= s);
        }
        if n == 0 {
            Err(PlatformError::NetworkConfig(owned("No active network interfaces available for DLNA service")))
        } else {
            Ok(n)
        }
    }
}

} // verus!
