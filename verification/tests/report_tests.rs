use vuio::diagnostic_report::{
    interface_diagnostics, NetworkInterfaceDiag, PlatformCapabilitiesDiag, PlatformDiagnostics, StartupDiagnostics,
};
use vuio::ip::IpAddress;
use vuio::platform::{InterfaceType, NetworkInterface, OsType, PlatformCapabilities, PlatformInfo};
use vuio::platform_error::PlatformError;

fn interface(name: &str, ip: IpAddress, loopback: bool, up: bool, t: InterfaceType) -> NetworkInterface {
    NetworkInterface {
        name: name.to_string(),
        ip_address: ip,
        is_loopback: loopback,
        is_up: up,
        supports_multicast: true,
        interface_type: t,
    }
}

fn linux_info(interfaces: Vec<NetworkInterface>) -> PlatformInfo {
    PlatformInfo {
        os_type: OsType::Linux,
        version: "Ubuntu 22.04".to_string(),
        capabilities: PlatformCapabilities::for_os(OsType::Linux),
        network_interfaces: interfaces,
        metadata: vec![("kernel".to_string(), "6.1".to_string())],
    }
}

#[test]
fn report_lists_interfaces_as_debug_writes_their_type() {
    let info = linux_info(vec![
        interface("lo", IpAddress::V4(127, 0, 0, 1), true, true, InterfaceType::Loopback),
        interface("eth0", IpAddress::V4(192, 168, 1, 20), false, true, InterfaceType::Ethernet),
        interface("x0", IpAddress::V4(10, 0, 0, 5), false, true, InterfaceType::Other("Bridge \"br\"".to_string())),
    ]);
    let (entries, primary) = interface_diagnostics(&info);
    assert_eq!(entries.len(), 3);
    assert_eq!(entries[0].interface_type, "Loopback");
    assert_eq!(entries[1].name, "eth0");
    assert_eq!(entries[1].ip_address, "192.168.1.20");
    assert_eq!(entries[1].interface_type, "Ethernet");
    assert_eq!(entries[2].interface_type, "Other(\"Bridge \\\"br\\\"\")");
    assert_eq!(entries[2].interface_type, format!("{:?}", InterfaceType::Other("Bridge \"br\"".to_string())));
    assert!(entries.iter().all(|e| e.mtu.is_none() && e.speed.is_none()));
    assert_eq!(primary, Some("eth0".to_string()));
}

#[test]
fn report_has_no_primary_without_suitable_interface() {
    let info = linux_info(vec![interface("lo", IpAddress::V4(127, 0, 0, 1), true, true, InterfaceType::Loopback)]);
    let (entries, primary) = interface_diagnostics(&info);
    assert_eq!(entries.len(), 1);
    assert_eq!(primary, None);
}

#[test]
fn interface_entry_writes_ipv6_addresses_compactly() {
    let i = interface("eth1", IpAddress::V6(0xfe80, 0, 0, 0, 0, 0, 0, 1), false, true, InterfaceType::WiFi);
    let d = NetworkInterfaceDiag::from_interface(&i);
    assert_eq!(d.ip_address, "fe80::1");
    assert_eq!(d.interface_type, "WiFi");
}

#[test]
fn platform_part_copies_what_is_known() {
    let info = linux_info(vec![]);
    let d = PlatformDiagnostics::describe(&info, "x86_64", Some("media-box".to_string()));
    assert_eq!(d.os_type, "Linux");
    assert_eq!(d.os_version, "Ubuntu 22.04");
    assert_eq!(d.architecture, "x86_64");
    assert_eq!(d.hostname, "media-box");
    assert_eq!(d.capabilities, PlatformCapabilitiesDiag::from_capabilities(&info.capabilities));
    assert!(d.capabilities.case_sensitive_fs);
    assert_eq!(d.platform_specific, vec![("kernel".to_string(), "6.1".to_string())]);

    let unknown = PlatformDiagnostics::describe(&info, "aarch64", None);
    assert_eq!(unknown.hostname, "unknown");

    let here = PlatformDiagnostics::collect(&info, "x86_64");
    assert!(!here.hostname.is_empty());
    assert_eq!(here.os_type, "Linux");
}

#[test]
fn startup_needs_a_usable_interface() {
    let none_usable = linux_info(vec![
        interface("lo", IpAddress::V4(127, 0, 0, 1), true, true, InterfaceType::Loopback),
        interface("eth0", IpAddress::V4(192, 168, 1, 20), false, false, InterfaceType::Ethernet),
    ]);
    match StartupDiagnostics::check_network_requirements(&none_usable) {
        Err(PlatformError::NetworkConfig(m)) => assert_eq!(m, "No active network interfaces available for DLNA service"),
        other => panic!("unexpected {:?}", other),
    }
    let two = linux_info(vec![
        interface("eth0", IpAddress::V4(192, 168, 1, 20), false, true, InterfaceType::Ethernet),
        interface("lo", IpAddress::V4(127, 0, 0, 1), true, true, InterfaceType::Loopback),
        interface("wlan0", IpAddress::V4(192, 168, 1, 21), false, true, InterfaceType::WiFi),
    ]);
    assert_eq!(StartupDiagnostics::check_network_requirements(&two).unwrap(), 2);
    assert!(StartupDiagnostics::platform_supported(OsType::MacOS));
}

use vuio::app_error::LogLevel;
use vuio::security::{
    linux_firewall, linux_security_report, macos_security_report, platform_detection_report, probe_enabled,
    selinux_mode, windows_security_report, Probe,
};

fn lines(v: &[(LogLevel, &str)]) -> Vec<(LogLevel, String)> {
    v.iter().map(|(l, s)| (*l, s.to_string())).collect()
}

#[test]
fn probes_read_tool_outputs() {
    assert!(probe_enabled(Probe::RootUser, Some("0\n")));
    assert!(probe_enabled(Probe::RootUser, Some("  +000 ")));
    assert!(!probe_enabled(Probe::RootUser, Some("1000\n")));
    assert!(!probe_enabled(Probe::RootUser, Some("root")));
    assert!(!probe_enabled(Probe::RootUser, None));
    assert!(probe_enabled(Probe::MacFirewall, Some("1\n")));
    assert!(probe_enabled(Probe::MacFirewall, Some("2")));
    assert!(!probe_enabled(Probe::MacFirewall, Some("0")));
    assert!(!probe_enabled(Probe::MacFirewall, Some("4294967296")));
    assert!(probe_enabled(Probe::WindowsFirewall, Some("Domain Profile Settings:\nState ON\n")));
    assert!(!probe_enabled(Probe::WindowsFirewall, Some("State OFF")));
    assert!(probe_enabled(Probe::WindowsDefender, Some("True\r\n")));
    assert!(!probe_enabled(Probe::WindowsDefender, Some("False")));
    assert!(probe_enabled(Probe::Gatekeeper, Some("assessments enabled\n")));
    assert!(!probe_enabled(Probe::Gatekeeper, Some("assessments disabled\n")));
    assert!(probe_enabled(Probe::IntegrityProtection, Some("System Integrity Protection status: enabled.")));
    assert!(probe_enabled(Probe::BindCapability, Some("Current: cap_net_bind_service=ep")));
    assert!(probe_enabled(Probe::AppArmor, Some("apparmor module is loaded.\n42 profiles are loaded.")));
    assert!(!probe_enabled(Probe::AppArmor, None));
    assert_eq!(selinux_mode(Some(" Enforcing\n")), Some("Enforcing".to_string()));
    assert_eq!(selinux_mode(None), None);
}

#[test]
fn linux_firewall_is_named_by_the_first_tool_in_force() {
    assert_eq!(linux_firewall(Some("Status: active\n"), Some("running"), None), "ufw (active)");
    assert_eq!(linux_firewall(Some("Status: inactive\n"), Some(" running\n"), None), "firewalld (running)");
    assert_eq!(
        linux_firewall(None, Some("not running"), Some("Chain INPUT (policy DROP)\n")),
        "iptables (configured)"
    );
    assert_eq!(linux_firewall(None, None, Some("Chain INPUT (policy ACCEPT)\n")), "");
    assert_eq!(linux_firewall(None, None, Some("")), "");
    assert_eq!(linux_firewall(None, None, None), "");
}

#[test]
fn windows_security_lines_follow_the_findings() {
    assert_eq!(
        windows_security_report(false, true, Some(true), None),
        lines(&[
            (LogLevel::Info, "Running without administrator privileges"),
            (LogLevel::Warn, "Application may need administrator privileges for ports < 1024"),
            (LogLevel::Warn, "Consider running as administrator or using alternative ports"),
            (LogLevel::Info, "Windows Firewall is enabled"),
            (LogLevel::Info, "You may need to allow VuIO through the firewall"),
            (LogLevel::Warn, "Could not determine Windows Defender status"),
        ])
    );
    assert_eq!(
        windows_security_report(true, true, Some(false), Some(false)),
        lines(&[
            (LogLevel::Info, "Running with administrator privileges"),
            (LogLevel::Info, "Windows Firewall is disabled"),
        ])
    );
}

#[test]
fn macos_security_lines_follow_the_findings() {
    assert_eq!(
        macos_security_report(true, None, Some(false), Some(true)),
        lines(&[
            (LogLevel::Warn, "Running with elevated privileges (sudo)"),
            (LogLevel::Warn, "Consider running without sudo for better security"),
            (LogLevel::Warn, "Could not determine macOS Application Firewall status"),
            (LogLevel::Warn, "Gatekeeper is disabled - reduced security"),
            (LogLevel::Info, "System Integrity Protection (SIP) is enabled"),
        ])
    );
}

#[test]
fn linux_security_lines_follow_the_findings() {
    assert_eq!(
        linux_security_report(
            false,
            true,
            Some(false),
            Some("Permissive".to_string()),
            None,
            Some("ufw (active)".to_string())
        ),
        lines(&[
            (LogLevel::Info, "Running as non-root user"),
            (LogLevel::Warn, "No capability for privileged ports - may need root or systemd"),
            (LogLevel::Info, "SELinux is in permissive mode"),
            (LogLevel::Info, "SELinux violations will be logged but not enforced"),
            (LogLevel::Info, "AppArmor not detected or not available"),
            (LogLevel::Info, "Firewall detected: ufw (active)"),
            (LogLevel::Warn, "Firewall rules may block network connections"),
        ])
    );
    assert_eq!(
        linux_security_report(true, true, Some(true), Some("Strict".to_string()), Some(true), Some(String::new())),
        lines(&[
            (LogLevel::Warn, "Running as root user"),
            (LogLevel::Warn, "Consider running as a non-root user for better security"),
            (LogLevel::Warn, "Use capabilities or systemd for privileged port access"),
            (LogLevel::Warn, "Unknown SELinux status: Strict"),
            (LogLevel::Info, "AppArmor is enabled"),
            (LogLevel::Warn, "AppArmor profiles may restrict application behavior"),
            (LogLevel::Info, "No active firewall detected"),
        ])
    );
    assert_eq!(
        linux_security_report(false, false, None, None, Some(false), None),
        lines(&[
            (LogLevel::Info, "Running as non-root user"),
            (LogLevel::Info, "SELinux not detected or not available"),
            (LogLevel::Info, "AppArmor is not active"),
            (LogLevel::Warn, "Could not determine firewall status"),
        ])
    );
}

#[test]
fn detection_report_lists_platform_and_interfaces() {
    let info = linux_info(vec![
        interface("wlan0", IpAddress::V4(192, 168, 1, 30), false, true, InterfaceType::WiFi),
        interface("eth0", IpAddress::V4(192, 168, 1, 20), false, true, InterfaceType::Ethernet),
        interface("br0", IpAddress::V4(10, 0, 0, 1), false, false, InterfaceType::Other("bridge".to_string())),
    ]);
    assert_eq!(
        platform_detection_report(&info, "x86_64"),
        lines(&[
            (LogLevel::Info, "Platform: Linux Ubuntu 22.04"),
            (LogLevel::Info, "Architecture: x86_64"),
            (LogLevel::Info, "Platform capabilities:"),
            (LogLevel::Info, "  - Multicast support: true"),
            (LogLevel::Info, "  - Firewall present: true"),
            (LogLevel::Info, "  - Case-sensitive filesystem: true"),
            (LogLevel::Info, "Detected 3 network interface(s):"),
            (LogLevel::Info, "  - wlan0 (WiFi): 192.168.1.30 - Up: true, Multicast: true"),
            (LogLevel::Info, "  - eth0 (Ethernet): 192.168.1.20 - Up: true, Multicast: true"),
            (LogLevel::Info, "  - br0 (bridge): 10.0.0.1 - Up: false, Multicast: true"),
            (LogLevel::Info, "Primary network interface: eth0 (192.168.1.20)"),
            (LogLevel::Info, "Linux-specific diagnostics:"),
            (LogLevel::Info, "  - Firewall (iptables/ufw/firewalld) may block connections"),
            (LogLevel::Info, "  - SELinux/AppArmor policies may affect file access"),
        ])
    );
    let mut windows = linux_info(vec![]);
    windows.os_type = OsType::Windows;
    windows.capabilities = PlatformCapabilities::for_os(OsType::Windows);
    let report = platform_detection_report(&windows, "x86_64");
    assert_eq!(report[0], (LogLevel::Info, "Platform: Windows Ubuntu 22.04".to_string()));
    assert_eq!(
        report[6..].to_vec(),
        lines(&[
            (LogLevel::Warn, "No network interfaces detected - network functionality may be limited"),
            (LogLevel::Info, "Windows-specific diagnostics:"),
            (LogLevel::Info, "  - Administrator privileges may be required for ports < 1024"),
            (LogLevel::Info, "  - Windows Firewall may block network connections"),
        ])
    );
}

use vuio::status_log::{
    handle_platform_feature_unavailable, log_configuration_status, log_file_watcher_status, log_network_status, log_periodic_status, log_platform_error,
    log_shutdown_info,
};

#[test]
fn platform_error_report_lists_recovery_actions() {
    let e = PlatformError::NetworkConfig("port busy".to_string());
    let lines = log_platform_error(&e, "startup");
    assert_eq!(lines[0], (LogLevel::Error, format!("Platform error in startup: {}", e.message())));
    assert_eq!(lines[1], (LogLevel::Info, "Error is recoverable. Suggested actions:".to_string()));
    assert_eq!(lines[2], (LogLevel::Info, "  - Check network interface configuration".to_string()));
    assert_eq!(lines[3], (LogLevel::Info, "  - Verify network connectivity".to_string()));
    assert_eq!(lines[4], (LogLevel::Info, "  - Review error details: port busy".to_string()));
    assert_eq!(lines[5], (LogLevel::Debug, format!("User-friendly error message: {}", e.user_message())));
    assert_eq!(lines.len(), 6);

    let fatal = PlatformError::DetectionFailed("no os".to_string());
    let lines = log_platform_error(&fatal, "detection");
    assert_eq!(lines.len(), 3);
    assert_eq!(lines[1], (LogLevel::Error, "Error is not recoverable. Manual intervention may be required.".to_string()));
}

#[test]
fn network_status_report_lowercases_types() {
    let info = linux_info(vec![
        interface("eth0", IpAddress::V4(192, 168, 1, 20), false, true, InterfaceType::Ethernet),
        interface("lo", IpAddress::V4(127, 0, 0, 1), true, false, InterfaceType::Loopback),
        interface("x", IpAddress::V4(10, 1, 1, 1), false, true, InterfaceType::Other("Tap".to_string())),
    ]);
    let lines = log_network_status(&info);
    let text: Vec<&str> = lines.iter().map(|(_, s)| s.as_str()).collect();
    assert_eq!(
        text,
        vec![
            "=== Network Status ===",
            "Detected 3 network interface(s)",
            "  - eth0 (192.168.1.20): UP [ethernet] [multicast] [physical]",
            "  - lo (127.0.0.1): DOWN [loopback] [multicast] [loopback]",
            "  - x (10.1.1.1): UP [other(\"tap\")] [multicast] [physical]",
            "Primary interface selected: eth0 (192.168.1.20)",
            "Network capabilities:",
            "  - Privileged port binding: false",
            "  - Multicast support: true",
            "  - Firewall present: true",
            "  - Network permissions required: false",
        ]
    );
}

#[test]
fn watcher_status_report_numbers_directories() {
    let dirs = vec![("/srv/media".to_string(), true), ("/mnt/gone".to_string(), false)];
    let lines = log_file_watcher_status(&dirs, false);
    assert_eq!(lines[1], (LogLevel::Warn, "File system watcher is not active - file changes will not be detected".to_string()));
    assert_eq!(lines[2].1, "Monitored directories: 2");
    assert_eq!(lines[3].1, "  1. /srv/media [accessible]");
    assert_eq!(lines[4].1, "  2. /mnt/gone [inaccessible]");
    assert_eq!(lines.len(), 5);
    let none = log_file_watcher_status(&vec![], true);
    assert_eq!(none[1].1, "File system watcher is active");
    assert_eq!(none.last().unwrap(), &(LogLevel::Warn, "No directories are being monitored for file changes".to_string()));
}

#[test]
fn configuration_status_report() {
    let errors = vec!["bad port".to_string()];
    let defaults = vec!["server.name".to_string()];
    let lines = log_configuration_status(Some("/etc/vuio.toml"), true, false, &errors, &defaults);
    let text: Vec<&str> = lines.iter().map(|(_, s)| s.as_str()).collect();
    assert_eq!(
        text,
        vec![
            "=== Configuration Status ===",
            "Configuration file: /etc/vuio.toml",
            "Configuration file exists",
            "Configuration contains errors:",
            "  - bad port",
            "Using default values for:",
            "  - server.name",
        ]
    );
    assert_eq!(lines[3].0, LogLevel::Error);
    let missing = log_configuration_status(Some("/x.toml"), false, true, &vec![], &vec![]);
    assert_eq!(missing.last().unwrap(), &(LogLevel::Warn, "Configuration file not found - using defaults".to_string()));
    let unnamed = log_configuration_status(None, false, true, &vec![], &vec![]);
    assert_eq!(unnamed[1].1, "No configuration file specified - using built-in defaults");
    assert_eq!(unnamed.len(), 2);
}

#[test]
fn uptime_is_reported_in_hours_and_minutes() {
    let lines = log_periodic_status(7_384, 2, 15, 0);
    assert_eq!(lines[1].1, "Uptime: 2h 3m");
    assert_eq!(lines[2].1, "Active DLNA connections: 2");
    assert_eq!(lines[3].1, "Files served since startup: 15");
    assert_eq!(lines[4], (LogLevel::Info, "No errors since startup".to_string()));
    assert_eq!(log_periodic_status(59, 0, 0, 3)[4], (LogLevel::Warn, "Errors since startup: 3".to_string()));
    let bye = log_shutdown_info(false, 90_061);
    assert_eq!(bye[1].1, "Shutdown type: Forced");
    assert_eq!(bye[2].1, "Total uptime: 25h 1m");
    assert_eq!(bye[3].0, LogLevel::Warn);
    assert_eq!(log_shutdown_info(true, 0)[2].1, "Total uptime: 0h 0m");
}

#[test]
fn unavailable_features_are_reported_by_kind() {
    let database = handle_platform_feature_unavailable("database", "locked");
    assert_eq!(
        database,
        lines(&[
            (LogLevel::Error, "Database functionality unavailable: locked"),
            (LogLevel::Error, "Media library persistence will not work"),
            (LogLevel::Warn, "Falling back to in-memory media scanning on each startup"),
        ])
    );
    assert_eq!(handle_platform_feature_unavailable("multicast", "no route")[0].1, "Multicast networking unavailable: no route");
    assert_eq!(handle_platform_feature_unavailable("privileged_ports", "denied")[2].1, "SSDP will use port 8080 instead of 1900");
    assert_eq!(handle_platform_feature_unavailable("file_watching", "inotify")[1].0, LogLevel::Warn);
    assert_eq!(handle_platform_feature_unavailable("network_interfaces", "none")[1].1, "DLNA functionality will be severely limited");
    assert_eq!(
        handle_platform_feature_unavailable("gpu", "absent"),
        lines(&[(LogLevel::Warn, "Platform feature 'gpu' unavailable: absent")])
    );
}

#[test]
fn debug_lists_escape_like_rust_debug() {
    let v = vec![
        "plain".to_string(),
        "tab\tquote\"back\\slash".to_string(),
        "caf\u{e9} \u{200b}zero-width \u{301}combining \u{7f}del \u{1b}esc".to_string(),
        "\u{feff}bom \u{1f600} \u{a0}nbsp".to_string(),
    ];
    assert_eq!(vuio::debug_fmt::debug_string_list(&v), format!("{:?}", v));
}
