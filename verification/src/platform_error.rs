//! Platform error types, their messages and the recovery guidance attached
//! to each kind of failure.
use vstd::prelude::*;
use crate::text::{around_decimal, concat2, concat3, decimal, owned, push_decimal, push_str, texts};

verus! {

/// Comprehensive platform-specific error types with recovery strategies.
#[derive(Debug)]
pub enum PlatformError {
    Windows(WindowsError),
    MacOS(MacOSError),
    Linux(LinuxError),
    NetworkConfig(String),
    FileSystemAccess(String),
    Database(DatabaseError),
    Configuration(ConfigurationError),
    DetectionFailed(String),
    UnsupportedFeature(String),
}

/// Windows-specific error types with detailed troubleshooting information.
#[derive(Debug)]
pub enum WindowsError {
    PrivilegedPortAccess { port: u16 },
    FirewallBlocked,
    UncPathDenied { path: String },
    ServiceRegistrationFailed { reason: String },
    RegistryAccessDenied { key: String },
    ApiCallFailed { function: String, code: u32 },
    ComInitFailed { reason: String },
    WmiQueryFailed { query: String, reason: String },
}

/// macOS-specific error types with system integration guidance.
#[derive(Debug)]
pub enum MacOSError {
    NetworkPermissionDenied,
    KeychainAccessDenied { reason: String },
    ApplicationFirewallBlocked,
    SandboxRestriction { operation: String },
    CoreFoundationError { reason: String },
    SystemConfigurationError { reason: String },
    BonjourRegistrationFailed { reason: String },
    UnsupportedVersion { version: String },
}

/// Linux-specific error types with distribution-specific guidance.
#[derive(Debug)]
pub enum LinuxError {
    InsufficientCapabilities { port: u16 },
    SelinuxViolation { context: String },
    AppArmorRestriction { profile: String },
    SystemdServiceError { reason: String },
    NetworkNamespaceError { namespace: String },
    DBusConnectionFailed { reason: String },
    FirewallBlocked,
    UserPermissionDenied { operation: String, group: String },
    UnsupportedDistribution { distro: String },
}

/// Database-related error types with recovery strategies.
#[derive(Debug)]
pub enum DatabaseError {
    ConnectionFailed { reason: String },
    CorruptionDetected { location: String },
    MigrationFailed { from: u32, to: u32, reason: String },
    LockTimeout { seconds: u64 },
    InsufficientDiskSpace { required_mb: u64, available_mb: u64 },
    BackupFailed { reason: String },
    RestoreFailed { reason: String },
    QueryFailed { query: String, reason: String },
}

/// Configuration-related error types with user guidance.
#[derive(Debug)]
pub enum ConfigurationError {
    FileNotFound { path: String },
    ParseError { line: usize, reason: String },
    InvalidValue { key: String, value: String, expected: String },
    PermissionDenied { path: String },
    DirectoryCreationFailed { path: String, reason: String },
    ValidationFailed { reason: String },
    WatcherError { reason: String },
    BackupFailed { reason: String },
}

// ---------------------------------------------------------------------------
// Windows
// ---------------------------------------------------------------------------

impl WindowsError {
    /// The error's message.
    pub open spec fn text(&self) -> Seq<char> {
        match self {
            WindowsError::PrivilegedPortAccess { port } => "Administrator privileges required for port "@
                + decimal(*port as nat)
                + ". Try running as administrator or use an alternative port (8080, 8081, 8082)"@,
            WindowsError::FirewallBlocked => "Windows Firewall is blocking multicast traffic. Please add an exception for OpenDLNA in Windows Defender Firewall settings"@,
            WindowsError::UncPathDenied { path } => "UNC path access denied: "@ + path@
                + ". Check network credentials and path accessibility"@,
            WindowsError::ServiceRegistrationFailed { reason } => "Windows service registration failed: "@
                + reason@ + ". Try running with administrator privileges"@,
            WindowsError::RegistryAccessDenied { key } => "Registry access denied: "@ + key@
                + ". Administrator privileges may be required"@,
            WindowsError::ApiCallFailed { function, code } => "Windows API call failed: "@ + function@
                + " returned error code "@ + decimal(*code as nat),
            WindowsError::ComInitFailed { reason } => "COM initialization failed: "@ + reason@,
            WindowsError::WmiQueryFailed { query, reason } => "WMI query failed: "@ + query@
                + ". Error: "@ + reason@,
        }
    }

    /// The error's message.
    pub fn message(&self) -> (res: String)
        ensures
            res@ == self.text(),
    {
        match self {
            WindowsError::PrivilegedPortAccess { port } => around_decimal(
                "Administrator privileges required for port ",
                *port as u64,
                ". Try running as administrator or use an alternative port (8080, 8081, 8082)",
            ),
            WindowsError::FirewallBlocked => owned(
                "Windows Firewall is blocking multicast traffic. Please add an exception for OpenDLNA in Windows Defender Firewall settings",
            ),
            WindowsError::UncPathDenied { path } => concat3(
                "UNC path access denied: ",
                path.as_str(),
                ". Check network credentials and path accessibility",
            ),
            WindowsError::ServiceRegistrationFailed { reason } => concat3(
                "Windows service registration failed: ",
                reason.as_str(),
                ". Try running with administrator privileges",
            ),
            WindowsError::RegistryAccessDenied { key } => concat3(
                "Registry access denied: ",
                key.as_str(),
                ". Administrator privileges may be required",
            ),
            WindowsError::ApiCallFailed { function, code } => {
                let mut s = concat3("Windows API call failed: ", function.as_str(), " returned error code ");
                push_decimal(&mut s, *code as u64);
                s
            },
            WindowsError::ComInitFailed { reason } => concat2("COM initialization failed: ", reason.as_str()),
            WindowsError::WmiQueryFailed { query, reason } => {
                let mut s = concat3("WMI query failed: ", query.as_str(), ". Error: ");
                push_str(&mut s, reason.as_str());
                s
            },
        }
    }

    /// The troubleshooting steps for this error.
    pub open spec fn guide(&self) -> Seq<char> {
        match self {
            WindowsError::PrivilegedPortAccess { .. } => "1. Run as Administrator, or 2. Use alternative ports (8080-8082), or 3. Configure Windows to allow non-privileged port binding"@,
            WindowsError::FirewallBlocked => "1. Open Windows Defender Firewall, 2. Click 'Allow an app through firewall', 3. Add OpenDLNA to exceptions"@,
            WindowsError::UncPathDenied { .. } => "1. Check network connectivity, 2. Verify credentials, 3. Test path accessibility in File Explorer"@,
            WindowsError::ServiceRegistrationFailed { .. } => "1. Run as Administrator, 2. Check Windows Event Log, 3. Verify service name is unique"@,
            WindowsError::RegistryAccessDenied { .. } => "1. Run as Administrator, 2. Check registry permissions, 3. Use RegEdit to verify access"@,
            WindowsError::ApiCallFailed { .. } => "1. Check Windows version compatibility, 2. Verify system integrity (sfc /scannow), 3. Update Windows"@,
            WindowsError::ComInitFailed { .. } => "1. Restart application, 2. Check for COM+ corruption, 3. Re-register COM components"@,
            WindowsError::WmiQueryFailed { .. } => "1. Restart WMI service, 2. Check WMI repository integrity, 3. Run as Administrator"@,
        }
    }

    /// The troubleshooting steps for this error.
    pub fn troubleshooting_guide(&self) -> (res: &'static str)
        ensures
            res@ == self.guide(),
    {
        match self {
            WindowsError::PrivilegedPortAccess { .. } => "1. Run as Administrator, or 2. Use alternative ports (8080-8082), or 3. Configure Windows to allow non-privileged port binding",
            WindowsError::FirewallBlocked => "1. Open Windows Defender Firewall, 2. Click 'Allow an app through firewall', 3. Add OpenDLNA to exceptions",
            WindowsError::UncPathDenied { .. } => "1. Check network connectivity, 2. Verify credentials, 3. Test path accessibility in File Explorer",
            WindowsError::ServiceRegistrationFailed { .. } => "1. Run as Administrator, 2. Check Windows Event Log, 3. Verify service name is unique",
            WindowsError::RegistryAccessDenied { .. } => "1. Run as Administrator, 2. Check registry permissions, 3. Use RegEdit to verify access",
            WindowsError::ApiCallFailed { .. } => "1. Check Windows version compatibility, 2. Verify system integrity (sfc /scannow), 3. Update Windows",
            WindowsError::ComInitFailed { .. } => "1. Restart application, 2. Check for COM+ corruption, 3. Re-register COM components",
            WindowsError::WmiQueryFailed { .. } => "1. Restart WMI service, 2. Check WMI repository integrity, 3. Run as Administrator",
        }
    }

    /// Whether the application can recover from this error.
    pub open spec fn recoverable(&self) -> bool {
        !(self is RegistryAccessDenied || self is ApiCallFailed)
    }

    /// Whether the application can recover from this error.
    pub fn is_recoverable(&self) -> (res: bool)
        ensures
            res == self.recoverable(),
    {
        match self {
            WindowsError::PrivilegedPortAccess { .. } => true,
            WindowsError::FirewallBlocked => true,
            WindowsError::UncPathDenied { .. } => true,
            WindowsError::ServiceRegistrationFailed { .. } => true,
            WindowsError::RegistryAccessDenied { .. } => false,
            WindowsError::ApiCallFailed { .. } => false,
            WindowsError::ComInitFailed { .. } => true,
            WindowsError::WmiQueryFailed { .. } => true,
        }
    }

    /// The suggested recovery actions.
    pub open spec fn actions(&self) -> Seq<Seq<char>> {
        match self {
            WindowsError::PrivilegedPortAccess { port } => seq![
                "Try alternative ports (8080, 8081, 8082)"@,
                "Run as Administrator to use port "@ + decimal(*port as nat),
                "Configure port forwarding if needed"@,
            ],
            WindowsError::FirewallBlocked => seq![
                "Add OpenDLNA to Windows Firewall exceptions"@,
                "Temporarily disable firewall for testing"@,
                "Configure specific port exceptions"@,
            ],
            _ => seq!["Follow troubleshooting guide"@],
        }
    }

    /// The suggested recovery actions.
    pub fn recovery_actions(&self) -> (res: Vec<String>)
        ensures
            texts(res@) == self.actions(),
    {
        let mut v: Vec<String> = Vec::new();
        match self {
            WindowsError::PrivilegedPortAccess { port } => {
                v.push(owned("Try alternative ports (8080, 8081, 8082)"));
                v.push(around_decimal("Run as Administrator to use port ", *port as u64, ""));
                v.push(owned("Configure port forwarding if needed"));
            },
            WindowsError::FirewallBlocked => {
                v.push(owned("Add OpenDLNA to Windows Firewall exceptions"));
                v.push(owned("Temporarily disable firewall for testing"));
                v.push(owned("Configure specific port exceptions"));
            },
            _ => {
                v.push(owned("Follow troubleshooting guide"));
            },
        }
        proof {
            assert(""@ == Seq::<char>::empty()) by {
                reveal_strlit("");
            }
            assert(texts(v@) =~= self.actions());
        }
        v
    }
}

// ---------------------------------------------------------------------------
// macOS
// ---------------------------------------------------------------------------

impl MacOSError {
    /// The error's message.
    pub open spec fn text(&self) -> Seq<char> {
        match self {
            MacOSError::NetworkPermissionDenied => "macOS permission denied for network operations. Grant network permissions in System Preferences > Security & Privacy"@,
            MacOSError::KeychainAccessDenied { reason } => "Keychain access denied: "@ + reason@ + ". Check keychain permissions"@,
            MacOSError::ApplicationFirewallBlocked => "macOS Application Firewall is blocking connections. Add OpenDLNA to allowed applications"@,
            MacOSError::SandboxRestriction { operation } => "Sandbox restriction: "@ + operation@
                + ". The application may be running in a restricted environment"@,
            MacOSError::CoreFoundationError { reason } => "Core Foundation error: "@ + reason@,
            MacOSError::SystemConfigurationError { reason } => "System Configuration framework error: "@ + reason@,
            MacOSError::BonjourRegistrationFailed { reason } => "Bonjour service registration failed: "@ + reason@,
            MacOSError::UnsupportedVersion { version } => "macOS version "@ + version@
                + " is not supported. Minimum required version is 10.15"@,
        }
    }

    /// The error's message.
    pub fn message(&self) -> (res: String)
        ensures
            res@ == self.text(),
    {
        match self {
            MacOSError::NetworkPermissionDenied => owned(
                "macOS permission denied for network operations. Grant network permissions in System Preferences > Security & Privacy",
            ),
            MacOSError::KeychainAccessDenied { reason } => concat3(
                "Keychain access denied: ",
                reason.as_str(),
                ". Check keychain permissions",
            ),
            MacOSError::ApplicationFirewallBlocked => owned(
                "macOS Application Firewall is blocking connections. Add OpenDLNA to allowed applications",
            ),
            MacOSError::SandboxRestriction { operation } => concat3(
                "Sandbox restriction: ",
                operation.as_str(),
                ". The application may be running in a restricted environment",
            ),
            MacOSError::CoreFoundationError { reason } => concat2("Core Foundation error: ", reason.as_str()),
            MacOSError::SystemConfigurationError { reason } => concat2(
                "System Configuration framework error: ",
                reason.as_str(),
            ),
            MacOSError::BonjourRegistrationFailed { reason } => concat2(
                "Bonjour service registration failed: ",
                reason.as_str(),
            ),
            MacOSError::UnsupportedVersion { version } => concat3(
                "macOS version ",
                version.as_str(),
                " is not supported. Minimum required version is 10.15",
            ),
        }
    }

    /// The troubleshooting steps for this error.
    pub open spec fn guide(&self) -> Seq<char> {
        match self {
            MacOSError::NetworkPermissionDenied => "1. Open System Preferences > Security & Privacy, 2. Grant network permissions to OpenDLNA"@,
            MacOSError::KeychainAccessDenied { .. } => "1. Open Keychain Access, 2. Check application permissions, 3. Reset keychain if necessary"@,
            MacOSError::ApplicationFirewallBlocked => "1. Open System Preferences > Security & Privacy > Firewall, 2. Add OpenDLNA to allowed apps"@,
            MacOSError::SandboxRestriction { .. } => "1. Check app entitlements, 2. Disable sandbox if possible, 3. Request additional permissions"@,
            MacOSError::CoreFoundationError { .. } => "1. Restart application, 2. Check system integrity, 3. Update macOS"@,
            MacOSError::SystemConfigurationError { .. } => "1. Reset network configuration, 2. Check system preferences, 3. Restart networking"@,
            MacOSError::BonjourRegistrationFailed { .. } => "1. Restart mDNSResponder service, 2. Check network connectivity, 3. Verify service name uniqueness"@,
            MacOSError::UnsupportedVersion { .. } => "1. Update macOS to 10.15 or later, 2. Use compatibility mode if available"@,
        }
    }

    /// The troubleshooting steps for this error.
    pub fn troubleshooting_guide(&self) -> (res: &'static str)
        ensures
            res@ == self.guide(),
    {
        match self {
            MacOSError::NetworkPermissionDenied => "1. Open System Preferences > Security & Privacy, 2. Grant network permissions to OpenDLNA",
            MacOSError::KeychainAccessDenied { .. } => "1. Open Keychain Access, 2. Check application permissions, 3. Reset keychain if necessary",
            MacOSError::ApplicationFirewallBlocked => "1. Open System Preferences > Security & Privacy > Firewall, 2. Add OpenDLNA to allowed apps",
            MacOSError::SandboxRestriction { .. } => "1. Check app entitlements, 2. Disable sandbox if possible, 3. Request additional permissions",
            MacOSError::CoreFoundationError { .. } => "1. Restart application, 2. Check system integrity, 3. Update macOS",
            MacOSError::SystemConfigurationError { .. } => "1. Reset network configuration, 2. Check system preferences, 3. Restart networking",
            MacOSError::BonjourRegistrationFailed { .. } => "1. Restart mDNSResponder service, 2. Check network connectivity, 3. Verify service name uniqueness",
            MacOSError::UnsupportedVersion { .. } => "1. Update macOS to 10.15 or later, 2. Use compatibility mode if available",
        }
    }

    /// Whether the application can recover from this error.
    pub open spec fn recoverable(&self) -> bool {
        !(self is SandboxRestriction || self is UnsupportedVersion)
    }

    /// Whether the application can recover from this error.
    pub fn is_recoverable(&self) -> (res: bool)
        ensures
            res == self.recoverable(),
    {
        match self {
            MacOSError::NetworkPermissionDenied => true,
            MacOSError::KeychainAccessDenied { .. } => true,
            MacOSError::ApplicationFirewallBlocked => true,
            MacOSError::SandboxRestriction { .. } => false,
            MacOSError::CoreFoundationError { .. } => true,
            MacOSError::SystemConfigurationError { .. } => true,
            MacOSError::BonjourRegistrationFailed { .. } => true,
            MacOSError::UnsupportedVersion { .. } => false,
        }
    }

    /// The suggested recovery actions.
    pub open spec fn actions(&self) -> Seq<Seq<char>> {
        match self {
            MacOSError::NetworkPermissionDenied => seq![
                "Grant network permissions in System Preferences"@,
                "Restart application after granting permissions"@,
            ],
            MacOSError::ApplicationFirewallBlocked => seq![
                "Add OpenDLNA to firewall exceptions"@,
                "Temporarily disable firewall for testing"@,
            ],
            _ => seq!["Follow troubleshooting guide"@],
        }
    }

    /// The suggested recovery actions.
    pub fn recovery_actions(&self) -> (res: Vec<String>)
        ensures
            texts(res@) == self.actions(),
    {
        let mut v: Vec<String> = Vec::new();
        match self {
            MacOSError::NetworkPermissionDenied => {
                v.push(owned("Grant network permissions in System Preferences"));
                v.push(owned("Restart application after granting permissions"));
            },
            MacOSError::ApplicationFirewallBlocked => {
                v.push(owned("Add OpenDLNA to firewall exceptions"));
                v.push(owned("Temporarily disable firewall for testing"));
            },
            _ => {
                v.push(owned("Follow troubleshooting guide"));
            },
        }
        proof {
            assert(texts(v@) =~= self.actions());
        }
        v
    }
}

// ---------------------------------------------------------------------------
// Linux
// ---------------------------------------------------------------------------

impl LinuxError {
    /// The error's message.
    pub open spec fn text(&self) -> Seq<char> {
        match self {
            LinuxError::InsufficientCapabilities { port } => "Insufficient capabilities for port "@
                + decimal(*port as nat)
                + ". Try: sudo setcap 'cap_net_bind_service=+ep' /path/to/opendlna"@,
            LinuxError::SelinuxViolation { context } => "SELinux policy violation: "@ + context@
                + ". Try: sudo setsebool -P httpd_can_network_connect 1"@,
            LinuxError::AppArmorRestriction { profile } => "AppArmor restriction: "@ + profile@
                + ". Check AppArmor profile configuration"@,
            LinuxError::SystemdServiceError { reason } => "Systemd service error: "@ + reason@
                + ". Check: systemctl status opendlna"@,
            LinuxError::NetworkNamespaceError { namespace } => "Network namespace error: "@ + namespace@
                + ". Check network configuration"@,
            LinuxError::DBusConnectionFailed { reason } => "D-Bus connection failed: "@ + reason@
                + ". Check D-Bus service status"@,
            LinuxError::FirewallBlocked => "Firewall blocking connections. Check: sudo ufw status or sudo iptables -L"@,
            LinuxError::UserPermissionDenied { operation, group } => "User lacks permission for "@
                + operation@ + ". Add user to group: "@ + group@,
            LinuxError::UnsupportedDistribution { distro } => "Distribution "@ + distro@
                + " is not fully supported. Some features may not work correctly"@,
        }
    }

    /// The error's message.
    pub fn message(&self) -> (res: String)
        ensures
            res@ == self.text(),
    {
        match self {
            LinuxError::InsufficientCapabilities { port } => around_decimal(
                "Insufficient capabilities for port ",
                *port as u64,
                ". Try: sudo setcap 'cap_net_bind_service=+ep' /path/to/opendlna",
            ),
            LinuxError::SelinuxViolation { context } => concat3(
                "SELinux policy violation: ",
                context.as_str(),
                ". Try: sudo setsebool -P httpd_can_network_connect 1",
            ),
            LinuxError::AppArmorRestriction { profile } => concat3(
                "AppArmor restriction: ",
                profile.as_str(),
                ". Check AppArmor profile configuration",
            ),
            LinuxError::SystemdServiceError { reason } => concat3(
                "Systemd service error: ",
                reason.as_str(),
                ". Check: systemctl status opendlna",
            ),
            LinuxError::NetworkNamespaceError { namespace } => concat3(
                "Network namespace error: ",
                namespace.as_str(),
                ". Check network configuration",
            ),
            LinuxError::DBusConnectionFailed { reason } => concat3(
                "D-Bus connection failed: ",
                reason.as_str(),
                ". Check D-Bus service status",
            ),
            LinuxError::FirewallBlocked => owned(
                "Firewall blocking connections. Check: sudo ufw status or sudo iptables -L",
            ),
            LinuxError::UserPermissionDenied { operation, group } => {
                let mut s = concat3("User lacks permission for ", operation.as_str(), ". Add user to group: ");
                push_str(&mut s, group.as_str());
                s
            },
            LinuxError::UnsupportedDistribution { distro } => concat3(
                "Distribution ",
                distro.as_str(),
                " is not fully supported. Some features may not work correctly",
            ),
        }
    }

    /// The troubleshooting steps for this error.
    pub open spec fn guide(&self) -> Seq<char> {
        match self {
            LinuxError::InsufficientCapabilities { .. } => "1. Use setcap to grant network capabilities, 2. Run as root, 3. Use alternative ports"@,
            LinuxError::SelinuxViolation { .. } => "1. Configure SELinux policy, 2. Use audit2allow to create custom policy, 3. Set permissive mode temporarily"@,
            LinuxError::AppArmorRestriction { .. } => "1. Modify AppArmor profile, 2. Disable profile temporarily, 3. Add necessary permissions"@,
            LinuxError::SystemdServiceError { .. } => "1. Check service status with systemctl, 2. Review service logs, 3. Verify service configuration"@,
            LinuxError::NetworkNamespaceError { .. } => "1. Check network namespace configuration, 2. Verify routing tables, 3. Test connectivity"@,
            LinuxError::DBusConnectionFailed { .. } => "1. Restart D-Bus service, 2. Check user permissions, 3. Verify D-Bus configuration"@,
            LinuxError::FirewallBlocked => "1. Configure iptables/ufw rules, 2. Check firewall status, 3. Add port exceptions"@,
            LinuxError::UserPermissionDenied { .. } => "1. Add user to required group, 2. Check file permissions, 3. Use sudo if necessary"@,
            LinuxError::UnsupportedDistribution { .. } => "1. Check compatibility documentation, 2. Use generic Linux configuration, 3. Report compatibility issues"@,
        }
    }

    /// The troubleshooting steps for this error.
    pub fn troubleshooting_guide(&self) -> (res: &'static str)
        ensures
            res@ == self.guide(),
    {
        match self {
            LinuxError::InsufficientCapabilities { .. } => "1. Use setcap to grant network capabilities, 2. Run as root, 3. Use alternative ports",
            LinuxError::SelinuxViolation { .. } => "1. Configure SELinux policy, 2. Use audit2allow to create custom policy, 3. Set permissive mode temporarily",
            LinuxError::AppArmorRestriction { .. } => "1. Modify AppArmor profile, 2. Disable profile temporarily, 3. Add necessary permissions",
            LinuxError::SystemdServiceError { .. } => "1. Check service status with systemctl, 2. Review service logs, 3. Verify service configuration",
            LinuxError::NetworkNamespaceError { .. } => "1. Check network namespace configuration, 2. Verify routing tables, 3. Test connectivity",
            LinuxError::DBusConnectionFailed { .. } => "1. Restart D-Bus service, 2. Check user permissions, 3. Verify D-Bus configuration",
            LinuxError::FirewallBlocked => "1. Configure iptables/ufw rules, 2. Check firewall status, 3. Add port exceptions",
            LinuxError::UserPermissionDenied { .. } => "1. Add user to required group, 2. Check file permissions, 3. Use sudo if necessary",
            LinuxError::UnsupportedDistribution { .. } => "1. Check compatibility documentation, 2. Use generic Linux configuration, 3. Report compatibility issues",
        }
    }

    /// Whether the application can recover from this error.
    pub open spec fn recoverable(&self) -> bool {
        !(self is UnsupportedDistribution)
    }

    /// Whether the application can recover from this error.
    pub fn is_recoverable(&self) -> (res: bool)
        ensures
            res == self.recoverable(),
    {
        match self {
            LinuxError::InsufficientCapabilities { .. } => true,
            LinuxError::SelinuxViolation { .. } => true,
            LinuxError::AppArmorRestriction { .. } => true,
            LinuxError::SystemdServiceError { .. } => true,
            LinuxError::NetworkNamespaceError { .. } => true,
            LinuxError::DBusConnectionFailed { .. } => true,
            LinuxError::FirewallBlocked => true,
            LinuxError::UserPermissionDenied { .. } => true,
            LinuxError::UnsupportedDistribution { .. } => false,
        }
    }

    /// The suggested recovery actions.
    pub open spec fn actions(&self) -> Seq<Seq<char>> {
        match self {
            LinuxError::InsufficientCapabilities { port } => seq![
                "sudo setcap 'cap_net_bind_service=+ep' $(which opendlna)"@,
                "Use alternative port instead of "@ + decimal(*port as nat),
                "Run with sudo (not recommended for production)"@,
            ],
            LinuxError::FirewallBlocked => seq![
                "sudo ufw allow 1900/udp"@,
                "sudo ufw allow 8080/tcp"@,
                "Check iptables rules: sudo iptables -L"@,
            ],
            _ => seq!["Follow troubleshooting guide"@],
        }
    }

    /// The suggested recovery actions.
    pub fn recovery_actions(&self) -> (res: Vec<String>)
        ensures
            texts(res@) == self.actions(),
    {
        let mut v: Vec<String> = Vec::new();
        match self {
            LinuxError::InsufficientCapabilities { port } => {
                v.push(owned("sudo setcap 'cap_net_bind_service=+ep' $(which opendlna)"));
                v.push(around_decimal("Use alternative port instead of ", *port as u64, ""));
                v.push(owned("Run with sudo (not recommended for production)"));
            },
            LinuxError::FirewallBlocked => {
                v.push(owned("sudo ufw allow 1900/udp"));
                v.push(owned("sudo ufw allow 8080/tcp"));
                v.push(owned("Check iptables rules: sudo iptables -L"));
            },
            _ => {
                v.push(owned("Follow troubleshooting guide"));
            },
        }
        proof {
            assert(""@ == Seq::<char>::empty()) by {
                reveal_strlit("");
            }
            assert(texts(v@) =~= self.actions());
        }
        v
    }
}

// ---------------------------------------------------------------------------
// Database
// ---------------------------------------------------------------------------

impl DatabaseError {
    /// The error's message.
    pub open spec fn text(&self) -> Seq<char> {
        match self {
            DatabaseError::ConnectionFailed { reason } => "Database connection failed: "@ + reason@
                + ". The database file may be corrupted"@,
            DatabaseError::CorruptionDetected { location } => "Database corruption detected at "@ + location@
                + ". Attempting automatic recovery"@,
            DatabaseError::MigrationFailed { from, to, reason } => "Database migration failed from version "@
                + decimal(*from as nat) + " to "@ + decimal(*to as nat) + ": "@ + reason@,
            DatabaseError::LockTimeout { seconds } => "Database lock timeout after "@ + decimal(*seconds as nat)
                + "s. Another process may be using the database"@,
            DatabaseError::InsufficientDiskSpace { required_mb, available_mb } => "Insufficient disk space for database operation. Required: "@
                + decimal(*required_mb as nat) + "MB, Available: "@ + decimal(*available_mb as nat) + "MB"@,
            DatabaseError::BackupFailed { reason } => "Database backup failed: "@ + reason@,
            DatabaseError::RestoreFailed { reason } => "Database restore failed: "@ + reason@,
            DatabaseError::QueryFailed { query, reason } => "Query execution failed: "@ + query@
                + ". Error: "@ + reason@,
        }
    }

    /// The error's message.
    pub fn message(&self) -> (res: String)
        ensures
            res@ == self.text(),
    {
        match self {
            DatabaseError::ConnectionFailed { reason } => concat3(
                "Database connection failed: ",
                reason.as_str(),
                ". The database file may be corrupted",
            ),
            DatabaseError::CorruptionDetected { location } => concat3(
                "Database corruption detected at ",
                location.as_str(),
                ". Attempting automatic recovery",
            ),
            DatabaseError::MigrationFailed { from, to, reason } => {
                let mut s = around_decimal("Database migration failed from version ", *from as u64, " to ");
                push_decimal(&mut s, *to as u64);
                push_str(&mut s, ": ");
                push_str(&mut s, reason.as_str());
                s
            },
            DatabaseError::LockTimeout { seconds } => around_decimal(
                "Database lock timeout after ",
                *seconds,
                "s. Another process may be using the database",
            ),
            DatabaseError::InsufficientDiskSpace { required_mb, available_mb } => {
                let mut s = around_decimal(
                    "Insufficient disk space for database operation. Required: ",
                    *required_mb,
                    "MB, Available: ",
                );
                push_decimal(&mut s, *available_mb);
                push_str(&mut s, "MB");
                s
            },
            DatabaseError::BackupFailed { reason } => concat2("Database backup failed: ", reason.as_str()),
            DatabaseError::RestoreFailed { reason } => concat2("Database restore failed: ", reason.as_str()),
            DatabaseError::QueryFailed { query, reason } => {
                let mut s = concat3("Query execution failed: ", query.as_str(), ". Error: ");
                push_str(&mut s, reason.as_str());
                s
            },
        }
    }

    /// How the application recovers from this error.
    pub open spec fn strategy(&self) -> Seq<char> {
        match self {
            DatabaseError::ConnectionFailed { .. } => "Automatic database integrity check and repair will be attempted"@,
            DatabaseError::CorruptionDetected { .. } => "Database will be automatically rebuilt from media scan"@,
            DatabaseError::MigrationFailed { .. } => "Database will be backed up and recreated with current schema"@,
            DatabaseError::LockTimeout { .. } => "Retry operation after ensuring no other instances are running"@,
            DatabaseError::InsufficientDiskSpace { .. } => "Free up disk space or change database location"@,
            DatabaseError::BackupFailed { .. } => "Continue without backup, but data loss risk exists"@,
            DatabaseError::RestoreFailed { .. } => "Fallback to fresh database creation"@,
            DatabaseError::QueryFailed { .. } => "Retry with simplified query or rebuild database"@,
        }
    }

    /// How the application recovers from this error.
    pub fn recovery_strategy(&self) -> (res: &'static str)
        ensures
            res@ == self.strategy(),
    {
        match self {
            DatabaseError::ConnectionFailed { .. } => "Automatic database integrity check and repair will be attempted",
            DatabaseError::CorruptionDetected { .. } => "Database will be automatically rebuilt from media scan",
            DatabaseError::MigrationFailed { .. } => "Database will be backed up and recreated with current schema",
            DatabaseError::LockTimeout { .. } => "Retry operation after ensuring no other instances are running",
            DatabaseError::InsufficientDiskSpace { .. } => "Free up disk space or change database location",
            DatabaseError::BackupFailed { .. } => "Continue without backup, but data loss risk exists",
            DatabaseError::RestoreFailed { .. } => "Fallback to fresh database creation",
            DatabaseError::QueryFailed { .. } => "Retry with simplified query or rebuild database",
        }
    }

    /// Whether the application can recover from this error.
    pub open spec fn recoverable(&self) -> bool {
        !(self is InsufficientDiskSpace)
    }

    /// Whether the application can recover from this error.
    pub fn is_recoverable(&self) -> (res: bool)
        ensures
            res == self.recoverable(),
    {
        match self {
            DatabaseError::ConnectionFailed { .. } => true,
            DatabaseError::CorruptionDetected { .. } => true,
            DatabaseError::MigrationFailed { .. } => true,
            DatabaseError::LockTimeout { .. } => true,
            DatabaseError::InsufficientDiskSpace { .. } => false,
            DatabaseError::BackupFailed { .. } => true,
            DatabaseError::RestoreFailed { .. } => true,
            DatabaseError::QueryFailed { .. } => true,
        }
    }

    /// The suggested recovery actions.
    pub open spec fn actions(&self) -> Seq<Seq<char>> {
        match self {
            DatabaseError::CorruptionDetected { .. } => seq![
                "Backup existing database"@,
                "Rebuild database from media scan"@,
                "Verify data integrity"@,
            ],
            DatabaseError::LockTimeout { .. } => seq![
                "Check for other running instances"@,
                "Wait and retry operation"@,
                "Restart application if necessary"@,
            ],
            _ => seq!["Follow recovery strategy"@],
        }
    }

    /// The suggested recovery actions.
    pub fn recovery_actions(&self) -> (res: Vec<String>)
        ensures
            texts(res@) == self.actions(),
    {
        let mut v: Vec<String> = Vec::new();
        match self {
            DatabaseError::CorruptionDetected { .. } => {
                v.push(owned("Backup existing database"));
                v.push(owned("Rebuild database from media scan"));
                v.push(owned("Verify data integrity"));
            },
            DatabaseError::LockTimeout { .. } => {
                v.push(owned("Check for other running instances"));
                v.push(owned("Wait and retry operation"));
                v.push(owned("Restart application if necessary"));
            },
            _ => {
                v.push(owned("Follow recovery strategy"));
            },
        }
        proof {
            assert(texts(v@) =~= self.actions());
        }
        v
    }
}

// ---------------------------------------------------------------------------
// Configuration
// ---------------------------------------------------------------------------

impl ConfigurationError {
    /// The error's message.
    pub open spec fn text(&self) -> Seq<char> {
        match self {
            ConfigurationError::FileNotFound { path } => "Configuration file not found at "@ + path@
                + ". A default configuration will be created"@,
            ConfigurationError::ParseError { line, reason } => "Configuration file parse error at line "@
                + decimal(*line as nat) + ": "@ + reason@,
            ConfigurationError::InvalidValue { key, value, expected } => "Invalid configuration value for "@
                + key@ + ": "@ + value@ + ". Expected: "@ + expected@,
            ConfigurationError::PermissionDenied { path } => "Configuration file permission denied: "@
                + path@ + ". Check file permissions"@,
            ConfigurationError::DirectoryCreationFailed { path, reason } => "Configuration directory creation failed: "@
                + path@ + ". Error: "@ + reason@,
            ConfigurationError::ValidationFailed { reason } => "Configuration validation failed: "@ + reason@,
            ConfigurationError::WatcherError { reason } => "Configuration file watcher error: "@ + reason@
                + ". Hot-reloading disabled"@,
            ConfigurationError::BackupFailed { reason } => "Configuration backup failed: "@ + reason@,
        }
    }

    /// The error's message.
    pub fn message(&self) -> (res: String)
        ensures
            res@ == self.text(),
    {
        match self {
            ConfigurationError::FileNotFound { path } => concat3(
                "Configuration file not found at ",
                path.as_str(),
                ". A default configuration will be created",
            ),
            ConfigurationError::ParseError { line, reason } => {
                let mut s = around_decimal("Configuration file parse error at line ", *line as u64, ": ");
                push_str(&mut s, reason.as_str());
                s
            },
            ConfigurationError::InvalidValue { key, value, expected } => {
                let mut s = concat3("Invalid configuration value for ", key.as_str(), ": ");
                push_str(&mut s, value.as_str());
                push_str(&mut s, ". Expected: ");
                push_str(&mut s, expected.as_str());
                s
            },
            ConfigurationError::PermissionDenied { path } => concat3(
                "Configuration file permission denied: ",
                path.as_str(),
                ". Check file permissions",
            ),
            ConfigurationError::DirectoryCreationFailed { path, reason } => {
                let mut s = concat3("Configuration directory creation failed: ", path.as_str(), ". Error: ");
                push_str(&mut s, reason.as_str());
                s
            },
            ConfigurationError::ValidationFailed { reason } => concat2(
                "Configuration validation failed: ",
                reason.as_str(),
            ),
            ConfigurationError::WatcherError { reason } => concat3(
                "Configuration file watcher error: ",
                reason.as_str(),
                ". Hot-reloading disabled",
            ),
            ConfigurationError::BackupFailed { reason } => concat2("Configuration backup failed: ", reason.as_str()),
        }
    }

    /// How the user resolves this error.
    pub open spec fn solution(&self) -> Seq<char> {
        match self {
            ConfigurationError::FileNotFound { .. } => "A default configuration file will be created automatically"@,
            ConfigurationError::ParseError { .. } => "Fix the syntax error in the configuration file or restore from backup"@,
            ConfigurationError::InvalidValue { .. } => "Correct the invalid value or remove the line to use default"@,
            ConfigurationError::PermissionDenied { .. } => "Fix file permissions or run with appropriate privileges"@,
            ConfigurationError::DirectoryCreationFailed { .. } => "Check parent directory permissions and available disk space"@,
            ConfigurationError::ValidationFailed { .. } => "Review and correct the configuration values"@,
            ConfigurationError::WatcherError { .. } => "Configuration changes will require application restart"@,
            ConfigurationError::BackupFailed { .. } => "Continue without backup, but configuration changes may be lost"@,
        }
    }

    /// How the user resolves this error.
    pub fn solution_guide(&self) -> (res: &'static str)
        ensures
            res@ == self.solution(),
    {
        match self {
            ConfigurationError::FileNotFound { .. } => "A default configuration file will be created automatically",
            ConfigurationError::ParseError { .. } => "Fix the syntax error in the configuration file or restore from backup",
            ConfigurationError::InvalidValue { .. } => "Correct the invalid value or remove the line to use default",
            ConfigurationError::PermissionDenied { .. } => "Fix file permissions or run with appropriate privileges",
            ConfigurationError::DirectoryCreationFailed { .. } => "Check parent directory permissions and available disk space",
            ConfigurationError::ValidationFailed { .. } => "Review and correct the configuration values",
            ConfigurationError::WatcherError { .. } => "Configuration changes will require application restart",
            ConfigurationError::BackupFailed { .. } => "Continue without backup, but configuration changes may be lost",
        }
    }

    /// Whether the application can recover from this error.
    pub open spec fn recoverable(&self) -> bool {
        !(self is PermissionDenied || self is DirectoryCreationFailed)
    }

    /// Whether the application can recover from this error.
    pub fn is_recoverable(&self) -> (res: bool)
        ensures
            res == self.recoverable(),
    {
        match self {
            ConfigurationError::FileNotFound { .. } => true,
            ConfigurationError::ParseError { .. } => true,
            ConfigurationError::InvalidValue { .. } => true,
            ConfigurationError::PermissionDenied { .. } => false,
            ConfigurationError::DirectoryCreationFailed { .. } => false,
            ConfigurationError::ValidationFailed { .. } => true,
            ConfigurationError::WatcherError { .. } => true,
            ConfigurationError::BackupFailed { .. } => true,
        }
    }

    /// The suggested recovery actions.
    pub open spec fn actions(&self) -> Seq<Seq<char>> {
        match self {
            ConfigurationError::FileNotFound { path } => seq![
                "Create default configuration at "@ + path@,
                "Review and customize default settings"@,
            ],
            ConfigurationError::ParseError { line, .. } => seq![
                "Fix syntax error at line "@ + decimal(*line as nat),
                "Restore from backup if available"@,
                "Reset to default configuration"@,
            ],
            _ => seq!["Follow solution guide"@],
        }
    }

    /// The suggested recovery actions.
    pub fn recovery_actions(&self) -> (res: Vec<String>)
        ensures
            texts(res@) == self.actions(),
    {
        let mut v: Vec<String> = Vec::new();
        match self {
            ConfigurationError::FileNotFound { path } => {
                v.push(concat2("Create default configuration at ", path.as_str()));
                v.push(owned("Review and customize default settings"));
            },
            ConfigurationError::ParseError { line, .. } => {
                v.push(around_decimal("Fix syntax error at line ", *line as u64, ""));
                v.push(owned("Restore from backup if available"));
                v.push(owned("Reset to default configuration"));
            },
            _ => {
                v.push(owned("Follow solution guide"));
            },
        }
        proof {
            assert(""@ == Seq::<char>::empty()) by {
                reveal_strlit("");
            }
            assert(texts(v@) =~= self.actions());
        }
        v
    }
}

// ---------------------------------------------------------------------------
// Platform errors
// ---------------------------------------------------------------------------

impl PlatformError {
    /// The error's message.
    pub open spec fn text(&self) -> Seq<char> {
        match self {
            PlatformError::Windows(e) => "Windows-specific error: "@ + e.text(),
            PlatformError::MacOS(e) => "macOS-specific error: "@ + e.text(),
            PlatformError::Linux(e) => "Linux-specific error: "@ + e.text(),
            PlatformError::NetworkConfig(s) => "Network configuration error: "@ + s@,
            PlatformError::FileSystemAccess(s) => "File system access error: "@ + s@,
            PlatformError::Database(e) => "Database error: "@ + e.text(),
            PlatformError::Configuration(e) => "Configuration error: "@ + e.text(),
            PlatformError::DetectionFailed(s) => "Platform detection failed: "@ + s@,
            PlatformError::UnsupportedFeature(s) => "Unsupported platform feature: "@ + s@,
        }
    }

    /// The error's message.
    pub fn message(&self) -> (res: String)
        ensures
            res@ == self.text(),
    {
        match self {
            PlatformError::Windows(e) => {
                let m = e.message();
                concat2("Windows-specific error: ", m.as_str())
            },
            PlatformError::MacOS(e) => {
                let m = e.message();
                concat2("macOS-specific error: ", m.as_str())
            },
            PlatformError::Linux(e) => {
                let m = e.message();
                concat2("Linux-specific error: ", m.as_str())
            },
            PlatformError::NetworkConfig(s) => concat2("Network configuration error: ", s.as_str()),
            PlatformError::FileSystemAccess(s) => concat2("File system access error: ", s.as_str()),
            PlatformError::Database(e) => {
                let m = e.message();
                concat2("Database error: ", m.as_str())
            },
            PlatformError::Configuration(e) => {
                let m = e.message();
                concat2("Configuration error: ", m.as_str())
            },
            PlatformError::DetectionFailed(s) => concat2("Platform detection failed: ", s.as_str()),
            PlatformError::UnsupportedFeature(s) => concat2("Unsupported platform feature: ", s.as_str()),
        }
    }

    /// The message shown to the user, with troubleshooting guidance.
    pub open spec fn user_text(&self) -> Seq<char> {
        match self {
            PlatformError::Windows(e) => "Windows Error: "@ + e.text() + "\n\nTroubleshooting: "@ + e.guide(),
            PlatformError::MacOS(e) => "macOS Error: "@ + e.text() + "\n\nTroubleshooting: "@ + e.guide(),
            PlatformError::Linux(e) => "Linux Error: "@ + e.text() + "\n\nTroubleshooting: "@ + e.guide(),
            PlatformError::Database(e) => "Database Error: "@ + e.text() + "\n\nRecovery: "@ + e.strategy(),
            PlatformError::Configuration(e) => "Configuration Error: "@ + e.text() + "\n\nSolution: "@
                + e.solution(),
            _ => self.text(),
        }
    }

    /// Get user-friendly error message with troubleshooting guidance.
    pub fn user_message(&self) -> (res: String)
        ensures
            res@ == self.user_text(),
    {
        match self {
            PlatformError::Windows(e) => {
                let m = e.message();
                let mut s = concat3("Windows Error: ", m.as_str(), "\n\nTroubleshooting: ");
                push_str(&mut s, e.troubleshooting_guide());
                s
            },
            PlatformError::MacOS(e) => {
                let m = e.message();
                let mut s = concat3("macOS Error: ", m.as_str(), "\n\nTroubleshooting: ");
                push_str(&mut s, e.troubleshooting_guide());
                s
            },
            PlatformError::Linux(e) => {
                let m = e.message();
                let mut s = concat3("Linux Error: ", m.as_str(), "\n\nTroubleshooting: ");
                push_str(&mut s, e.troubleshooting_guide());
                s
            },
            PlatformError::Database(e) => {
                let m = e.message();
                let mut s = concat3("Database Error: ", m.as_str(), "\n\nRecovery: ");
                push_str(&mut s, e.recovery_strategy());
                s
            },
            PlatformError::Configuration(e) => {
                let m = e.message();
                let mut s = concat3("Configuration Error: ", m.as_str(), "\n\nSolution: ");
                push_str(&mut s, e.solution_guide());
                s
            },
            _ => self.message(),
        }
    }

    /// Whether the application can recover from this error.
    pub open spec fn recoverable(&self) -> bool {
        match self {
            PlatformError::Windows(e) => e.recoverable(),
            PlatformError::MacOS(e) => e.recoverable(),
            PlatformError::Linux(e) => e.recoverable(),
            PlatformError::Database(e) => e.recoverable(),
            PlatformError::Configuration(e) => e.recoverable(),
            PlatformError::NetworkConfig(_) => true,
            _ => false,
        }
    }

    /// Check if the error is recoverable.
    pub fn is_recoverable(&self) -> (res: bool)
        ensures
            res == self.recoverable(),
    {
        match self {
            PlatformError::Windows(e) => e.is_recoverable(),
            PlatformError::MacOS(e) => e.is_recoverable(),
            PlatformError::Linux(e) => e.is_recoverable(),
            PlatformError::Database(e) => e.is_recoverable(),
            PlatformError::Configuration(e) => e.is_recoverable(),
            PlatformError::NetworkConfig(_) => true,
            PlatformError::FileSystemAccess(_) => false,
            PlatformError::DetectionFailed(_) => false,
            PlatformError::UnsupportedFeature(_) => false,
        }
    }

    /// The suggested recovery actions.
    pub open spec fn actions(&self) -> Seq<Seq<char>> {
        match self {
            PlatformError::Windows(e) => e.actions(),
            PlatformError::MacOS(e) => e.actions(),
            PlatformError::Linux(e) => e.actions(),
            PlatformError::Database(e) => e.actions(),
            PlatformError::Configuration(e) => e.actions(),
            PlatformError::NetworkConfig(msg) => seq![
                "Check network interface configuration"@,
                "Verify network connectivity"@,
                "Review error details: "@ + msg@,
            ],
            _ => seq!["Contact support with error details"@],
        }
    }

    /// Get suggested recovery actions.
    pub fn recovery_actions(&self) -> (res: Vec<String>)
        ensures
            texts(res@) == self.actions(),
    {
        match self {
            PlatformError::Windows(e) => e.recovery_actions(),
            PlatformError::MacOS(e) => e.recovery_actions(),
            PlatformError::Linux(e) => e.recovery_actions(),
            PlatformError::Database(e) => e.recovery_actions(),
            PlatformError::Configuration(e) => e.recovery_actions(),
            PlatformError::NetworkConfig(msg) => {
                let mut v: Vec<String> = Vec::new();
                v.push(owned("Check network interface configuration"));
                v.push(owned("Verify network connectivity"));
                v.push(concat2("Review error details: ", msg.as_str()));
                proof {
                    assert(texts(v@) =~= self.actions());
                }
                v
            },
            _ => {
                let mut v: Vec<String> = Vec::new();
                v.push(owned("Contact support with error details"));
                proof {
                    assert(texts(v@) =~= self.actions());
                }
                v
            },
        }
    }
}

} // verus!
