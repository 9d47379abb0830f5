//! Operating systems, their capabilities, network interfaces and the rules
//! that pick the interface used for DLNA traffic.
use vstd::prelude::*;
use crate::ip::IpAddress;
use crate::text::{chars_of, same_chars};

verus! {

/// Operating system types supported by the platform abstraction layer.
#[derive(Debug, Clone, Copy, PartialEq, Eq, Structural)]
pub enum OsType {
    Windows,
    MacOS,
    Linux,
}

impl OsType {
    pub open spec fn display_name_spec(self) -> Seq<char> {
        match self {
            OsType::Windows => "Windows"@,
            OsType::MacOS => "macOS"@,
            OsType::Linux => "Linux"@,
        }
    }

    /// The display name of the operating system.
    pub fn display_name(&self) -> (res: &'static str)
        ensures
            res@ == self.display_name_spec(),
    {
        match self {
            OsType::Windows => "Windows",
            OsType::MacOS => "macOS",
            OsType::Linux => "Linux",
        }
    }
}

/// Platform capabilities that affect application behavior.
#[derive(Debug, Clone, Copy, PartialEq, Eq, Structural)]
pub struct PlatformCapabilities {
    /// Whether the platform can bind to privileged ports (< 1024) without elevation
    pub can_bind_privileged_ports: bool,
    /// Whether the platform supports multicast networking
    pub supports_multicast: bool,
    /// Whether the platform has a built-in firewall that may block connections
    pub has_firewall: bool,
    /// Whether the file system is case-sensitive
    pub case_sensitive_fs: bool,
    /// Whether the platform supports UNC paths (Windows) or similar network paths
    pub supports_network_paths: bool,
    /// Whether the platform requires special permissions for network operations
    pub requires_network_permissions: bool,
}

impl PlatformCapabilities {
    pub open spec fn for_os_spec(os: OsType) -> PlatformCapabilities {
        PlatformCapabilities {
            can_bind_privileged_ports: false,
            supports_multicast: true,
            has_firewall: true,
            case_sensitive_fs: os != OsType::Windows,
            supports_network_paths: true,
            requires_network_permissions: os != OsType::Linux,
        }
    }

    /// The capabilities of the given operating system.
    pub fn for_os(os: OsType) -> (res: PlatformCapabilities)
        ensures
            res == Self::for_os_spec(os),
    {
        match os {
            OsType::Windows => PlatformCapabilities {
                can_bind_privileged_ports: false,
                supports_multicast: true,
                has_firewall: true,
                case_sensitive_fs: false,
                supports_network_paths: true,
                requires_network_permissions: true,
            },
            OsType::MacOS => PlatformCapabilities {
                can_bind_privileged_ports: false,
                supports_multicast: true,
                has_firewall: true,
                case_sensitive_fs: true,
                supports_network_paths: true,
                requires_network_permissions: true,
            },
            OsType::Linux => PlatformCapabilities {
                can_bind_privileged_ports: false,
                supports_multicast: true,
                has_firewall: true,
                case_sensitive_fs: true,
                supports_network_paths: true,
                requires_network_permissions: false,
            },
        }
    }
}

/// Types of network interfaces.
#[derive(Debug, Clone)]
pub enum InterfaceType {
    Ethernet,
    WiFi,
    VPN,
    Loopback,
    Other(String),
}

/// What an interface type is, with the description of `Other` as text.
pub enum InterfaceKind {
    Ethernet,
    WiFi,
    VPN,
    Loopback,
    Other(Seq<char>),
}

impl View for InterfaceType {
    type V = InterfaceKind;

    open spec fn view(&self) -> InterfaceKind {
        match self {
            InterfaceType::Ethernet => InterfaceKind::Ethernet,
            InterfaceType::WiFi => InterfaceKind::WiFi,
            InterfaceType::VPN => InterfaceKind::VPN,
            InterfaceType::Loopback => InterfaceKind::Loopback,
            InterfaceType::Other(s) => InterfaceKind::Other(s@),
        }
    }
}

impl PartialEq for InterfaceType {
    fn eq(&self, other: &Self) -> (res: bool) {
        match (self, other) {
            (InterfaceType::Ethernet, InterfaceType::Ethernet) => true,
            (InterfaceType::WiFi, InterfaceType::WiFi) => true,
            (InterfaceType::VPN, InterfaceType::VPN) => true,
            (InterfaceType::Loopback, InterfaceType::Loopback) => true,
            (InterfaceType::Other(a), InterfaceType::Other(b)) => a.eq(b),
            _ => false,
        }
    }
}

impl vstd::std_specs::cmp::PartialEqSpecImpl for InterfaceType {
    open spec fn obeys_eq_spec() -> bool {
        true
    }

    open spec fn eq_spec(&self, other: &Self) -> bool {
        self@ == other@
    }
}

impl Eq for InterfaceType {
}

impl InterfaceKind {
    /// Preference rank for DLNA traffic: Ethernet, then Wi-Fi, then VPN,
    /// then any other kind; loopback last.
    pub open spec fn rank(self) -> nat {
        match self {
            InterfaceKind::Ethernet => 0,
            InterfaceKind::WiFi => 1,
            InterfaceKind::VPN => 2,
            InterfaceKind::Other(_) => 3,
            InterfaceKind::Loopback => 4,
        }
    }
}

impl InterfaceType {
    /// The preference rank of this interface type.
    pub fn rank(&self) -> (res: u8)
        ensures
            res as nat == self@.rank(),
    {
        match self {
            InterfaceType::Ethernet => 0,
            InterfaceType::WiFi => 1,
            InterfaceType::VPN => 2,
            InterfaceType::Other(_) => 3,
            InterfaceType::Loopback => 4,
        }
    }

    /// A copy of this interface type.
    pub fn duplicate(&self) -> (res: InterfaceType)
        ensures
            res@ == self@,
    {
        match self {
            InterfaceType::Ethernet => InterfaceType::Ethernet,
            InterfaceType::WiFi => InterfaceType::WiFi,
            InterfaceType::VPN => InterfaceType::VPN,
            InterfaceType::Loopback => InterfaceType::Loopback,
            InterfaceType::Other(s) => InterfaceType::Other(s.clone()),
        }
    }
}

/// Network interface information.
#[derive(Debug, Clone)]
pub struct NetworkInterface {
    /// Interface name (e.g., "eth0", "wlan0", "Ethernet")
    pub name: String,
    /// Primary IP address of the interface
    pub ip_address: IpAddress,
    /// Whether this is a loopback interface
    pub is_loopback: bool,
    /// Whether the interface is currently up and active
    pub is_up: bool,
    /// Whether the interface supports multicast
    pub supports_multicast: bool,
    /// Type of network interface
    pub interface_type: InterfaceType,
}

/// The content of a network interface record.
pub struct InterfaceView {
    pub name: Seq<char>,
    pub ip_address: IpAddress,
    pub is_loopback: bool,
    pub is_up: bool,
    pub supports_multicast: bool,
    pub kind: InterfaceKind,
}

impl View for NetworkInterface {
    type V = InterfaceView;

    open spec fn view(&self) -> InterfaceView {
        InterfaceView {
            name: self.name@,
            ip_address: self.ip_address,
            is_loopback: self.is_loopback,
            is_up: self.is_up,
            supports_multicast: self.supports_multicast,
            kind: self.interface_type@,
        }
    }
}

impl InterfaceView {
    /// Usable for DLNA traffic: not loopback, up, multicast capable.
    pub open spec fn suitable(self) -> bool {
        !self.is_loopback && self.is_up && self.supports_multicast
    }
}

/// The contents of a list of interface records.
pub open spec fn interface_views(s: Seq<NetworkInterface>) -> Seq<InterfaceView> {
    s.map_values(|i: NetworkInterface| i@)
}

/// Position `i` holds the interface that `get_primary_interface` picks from
/// `s`: a suitable one of least rank, the first such.
pub open spec fn is_primary_at(s: Seq<InterfaceView>, i: int) -> bool {
    &&& 0 <= i < s.len()
    &&& s[i].suitable()
    &&& forall|j: int| 0 <= j < s.len() && s[j].suitable() ==> s[i].kind.rank() <= s[j].kind.rank()
    &&& forall|j: int| 0 <= j < i && s[j].suitable() ==> s[i].kind.rank() < s[j].kind.rank()
}

/// Some interface of `s` is suitable.
pub open spec fn any_suitable(s: Seq<InterfaceView>) -> bool {
    exists|j: int| 0 <= j < s.len() && s[j].suitable()
}

impl NetworkInterface {
    /// Whether this interface suits DLNA traffic.
    pub fn is_suitable(&self) -> (res: bool)
        ensures
            res == self@.suitable(),
    {
        !self.is_loopback && self.is_up && self.supports_multicast
    }

    /// A copy of this interface record.
    pub fn duplicate(&self) -> (res: NetworkInterface)
        ensures
            res@ == self@,
    {
        NetworkInterface {
            name: self.name.clone(),
            ip_address: self.ip_address,
            is_loopback: self.is_loopback,
            is_up: self.is_up,
            supports_multicast: self.supports_multicast,
            interface_type: self.interface_type.duplicate(),
        }
    }
}

/// The position of the interface to use for DLNA traffic: the first
/// suitable interface of least rank.
pub fn primary_interface_index(ifaces: &Vec<NetworkInterface>) -> (res: Option<usize>)
    ensures
        res matches Some(i) ==> is_primary_at(interface_views(ifaces@), i as int),
        res is None <==> !any_suitable(interface_views(ifaces@)),
{
    let ghost s = interface_views(ifaces@);
    let mut best: Option<usize> = None;
    let mut i: usize = 0;
    while i < ifaces.len()
        invariant
            i <= ifaces.len(),
            s == interface_views(ifaces@),
            s.len() == ifaces.len(),
            best is None ==> forall|j: int| 0 <= j < i ==> !(#[trigger] s[j]).suitable(),
            best matches Some(b) ==> {
                &&& b < i
                &&& s[b as int].suitable()
                &&& forall|j: int|
                    0 <= j < i && (#[trigger] s[j]).suitable() ==> s[b as int].kind.rank()
                        <= s[j].kind.rank()
                &&& forall|j: int|
                    0 <= j < b && (#[trigger] s[j]).suitable() ==> s[b as int].kind.rank()
                        < s[j].kind.rank()
            },
        decreases ifaces.len() - i,
    {
        assert(s[i as int] == ifaces@[i as int]@);
        if ifaces[i].is_suitable() {
            match best {
                None => {
                    best = Some(i);
                },
                Some(b) => {
                    assert(s[b as int] == ifaces@[b as int]@);
                    if ifaces[i].interface_type.rank() < ifaces[b].interface_type.rank() {
                        best = Some(i);
                    }
                },
            }
        }
        i = i + 1;
    }
    best
}

/// Comprehensive platform information.
#[derive(Debug, Clone)]
pub struct PlatformInfo {
    /// Operating system type
    pub os_type: OsType,
    /// Operating system version string
    pub version: String,
    /// Platform-specific capabilities
    pub capabilities: PlatformCapabilities,
    /// Available network interfaces
    pub network_interfaces: Vec<NetworkInterface>,
    /// Additional platform-specific metadata, as key/value pairs
    pub metadata: Vec<(String, String)>,
}

/// The features that `supports_feature` knows.
pub open spec fn feature_value(caps: PlatformCapabilities, feature: Seq<char>) -> bool {
    if feature == "privileged_ports"@ {
        caps.can_bind_privileged_ports
    } else if feature == "multicast"@ {
        caps.supports_multicast
    } else if feature == "firewall"@ {
        caps.has_firewall
    } else if feature == "case_sensitive_fs"@ {
        caps.case_sensitive_fs
    } else if feature == "network_paths"@ {
        caps.supports_network_paths
    } else if feature == "network_permissions"@ {
        caps.requires_network_permissions
    } else {
        false
    }
}

impl PlatformInfo {
    /// The best network interface for DLNA operations: among interfaces
    /// that are up, not loopback and multicast capable, the first one of the
    /// most preferred type (Ethernet, Wi-Fi, VPN, other).
    pub fn get_primary_interface(&self) -> (res: Option<&NetworkInterface>)
        ensures
            res is None <==> !any_suitable(interface_views(self.network_interfaces@)),
            res matches Some(r) ==> exists|i: int|
                is_primary_at(interface_views(self.network_interfaces@), i) && *r
                    == self.network_interfaces@[i],
    {
        match primary_interface_index(&self.network_interfaces) {
            Some(i) => Some(&self.network_interfaces[i]),
            None => None,
        }
    }

    /// Whether the platform supports the named feature.
    pub fn supports_feature(&self, feature: &str) -> (res: bool)
        ensures
            res == feature_value(self.capabilities, feature@),
    {
        let f = chars_of(feature);
        let caps = self.capabilities;
        if same_chars(f.as_slice(), chars_of("privileged_ports").as_slice()) {
            caps.can_bind_privileged_ports
        } else if same_chars(f.as_slice(), chars_of("multicast").as_slice()) {
            caps.supports_multicast
        } else if same_chars(f.as_slice(), chars_of("firewall").as_slice()) {
            caps.has_firewall
        } else if same_chars(f.as_slice(), chars_of("case_sensitive_fs").as_slice()) {
            caps.case_sensitive_fs
        } else if same_chars(f.as_slice(), chars_of("network_paths").as_slice()) {
            caps.supports_network_paths
        } else if same_chars(f.as_slice(), chars_of("network_permissions").as_slice()) {
            caps.requires_network_permissions
        } else {
            false
        }
    }
}

/// Ports below 1024 need administrator or root privileges.
pub fn requires_elevation(port: u16) -> (res: bool)
    ensures
        res == (port < 1024),
{
    port < 1024
}

} // verus!
