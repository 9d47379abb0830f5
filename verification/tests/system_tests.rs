use vuio::app_error::{retry_step, AppError, LogLevel, RetryStep};
use vuio::diagnostics::{assemble_network_diagnostics, diagnostic_ports, interface_status};
use vuio::ip::IpAddress;
use vuio::platform::{InterfaceType, NetworkInterface, OsType};
use vuio::system_info::{
    gather_linux_metadata, gather_macos_metadata, gather_windows_metadata, insert_entry, linux_version,
    linux_version_from_os_release, macos_version, windows_version,
};
use vuio::windows_net::get_firewall_status;

fn get<'a>(m: &'a [(String, String)], k: &str) -> Option<&'a str> {
    m.iter().find(|(key, _)| key == k).map(|(_, v)| v.as_str())
}

const OS_RELEASE: &str = "NAME=\"Ubuntu\"\nVERSION=\"22.04.3 LTS (Jammy Jellyfish)\"\nID=ubuntu\nPRETTY_NAME=\"Ubuntu 22.04.3 LTS\"\n";

#[test]
fn test_linux_version_detection() {
    let version = linux_version(Some(OS_RELEASE), Some("Linux 6.1.0\n"));
    assert!(!version.is_empty());
    assert_eq!(version, "Ubuntu 22.04.3 LTS (Jammy Jellyfish)");
    assert_eq!(linux_version(Some("ID=arch\n"), Some("Linux 6.6.1-arch1\n")), "Linux 6.6.1-arch1");
    assert_eq!(linux_version(None, None), "Linux (unknown version)");
    assert_eq!(linux_version_from_os_release("NAME=Alpine\n").as_deref(), Some("Alpine"));
}

#[test]
fn test_linux_metadata() {
    let meta = gather_linux_metadata(Some(OS_RELEASE), Some("Linux version 6.1\n"), Some("box\n"), Some("x86_64\n"));
    assert_eq!(get(&meta, "platform"), Some("Linux"));
    assert_eq!(get(&meta, "name"), Some("Ubuntu"));
    assert_eq!(get(&meta, "pretty_name"), Some("Ubuntu 22.04.3 LTS"));
    assert_eq!(get(&meta, "kernel_version"), Some("Linux version 6.1"));
    assert_eq!(get(&meta, "hostname"), Some("box"));
    assert_eq!(get(&meta, "architecture"), Some("x86_64"));
}

#[test]
fn test_macos_version_detection() {
    let version = macos_version(Some("14.2.1\n"));
    assert!(version.contains("macOS"));
    assert_eq!(version, "macOS 14.2.1");
    assert_eq!(macos_version(None), "macOS (unknown version)");
}

#[test]
fn test_macos_metadata() {
    let sw = "ProductName:\t\tmacOS\nProductVersion:\t\t14.2.1\nBuildVersion:\t\t23C71\n";
    let meta = gather_macos_metadata(Some(sw), Some("arm64\n"), Some("mac.local\n"));
    assert_eq!(get(&meta, "platform"), Some("macOS"));
    assert_eq!(get(&meta, "productversion"), Some("14.2.1"));
    assert_eq!(get(&meta, "hardware_architecture"), Some("arm64"));
    assert_eq!(get(&meta, "hostname"), Some("mac.local"));
}

#[test]
fn test_windows_version_detection() {
    let version = windows_version(Some("Windows_NT"), Some("AMD64"));
    assert!(version.contains("Windows"));
    assert_eq!(version, "Windows (AMD64)");
    assert_eq!(windows_version(Some("Windows_NT"), None), "Windows");
    assert_eq!(windows_version(None, Some("AMD64")), "Windows (unknown version)");
}

#[test]
fn test_windows_metadata() {
    let meta = gather_windows_metadata(Some("DESKTOP-1"), None, Some("AMD64"), Some("8"));
    assert_eq!(get(&meta, "platform"), Some("Windows"));
    assert_eq!(get(&meta, "computer_name"), Some("DESKTOP-1"));
    assert_eq!(get(&meta, "user_domain"), None);
    assert_eq!(get(&meta, "number_of_processors"), Some("8"));
    assert!(matches!(get_firewall_status(), Ok(true)));
}

#[test]
fn later_settings_win() {
    let mut m = Vec::new();
    insert_entry(&mut m, "a".to_string(), "1".to_string());
    insert_entry(&mut m, "b".to_string(), "2".to_string());
    insert_entry(&mut m, "a".to_string(), "3".to_string());
    assert_eq!(m.len(), 2);
    assert_eq!(get(&m, "a"), Some("3"));
    assert_eq!(get(&m, "b"), Some("2"));
}

fn iface(name: &str, up: bool, loopback: bool) -> NetworkInterface {
    NetworkInterface {
        name: name.to_string(),
        ip_address: IpAddress::V4(192, 168, 1, 9),
        is_loopback: loopback,
        is_up: up,
        supports_multicast: true,
        interface_type: InterfaceType::Ethernet,
    }
}

#[test]
fn network_diagnostics_report() {
    assert_eq!(diagnostic_ports(), vec![1900, 8080, 8081, 8082, 9090]);
    let down = interface_status(Some(OsType::Linux), iface("eth1", false, false), false);
    assert!(!down.reachable);
    assert_eq!(down.error_message.as_deref(), Some("Interface is down or unreachable"));
    let quiet = interface_status(Some(OsType::Linux), iface("eth0", true, false), false);
    assert_eq!(quiet.error_message.as_deref(), Some("Interface does not support multicast"));
    let generic = interface_status(None, iface("eth0", true, false), false);
    assert_eq!(generic.error_message, None);

    let ports = vec![(1900u16, false), (8080u16, false), (80u16, false)];
    let d = assemble_network_diagnostics(
        Some(OsType::Linux),
        vec![down, quiet],
        &ports,
        false,
        &vec!["ns1".to_string()],
        None,
    );
    assert!(!d.multicast_working);
    assert!(d.available_ports.is_empty());
    assert_eq!(
        d.diagnostic_messages,
        vec![
            "Port 80 requires root privileges on Linux".to_string(),
            "No common ports are available for binding on Linux".to_string(),
            "Consider running with sudo to access privileged ports".to_string(),
            "No Linux interfaces support multicast".to_string(),
            "Check network interface configuration and kernel modules".to_string(),
            "Network namespaces detected: [\"ns1\"]".to_string(),
            "Consider running in the correct network namespace".to_string(),
        ]
    );

    let ok = interface_status(Some(OsType::MacOS), iface("en0", true, false), true);
    let d2 = assemble_network_diagnostics(Some(OsType::MacOS), vec![ok], &vec![(1900u16, true)], false, &vec![], None);
    assert!(d2.multicast_working);
    assert_eq!(d2.available_ports, vec![1900]);
    assert_eq!(d2.diagnostic_messages, vec!["Preferred multicast interface: en0 (192.168.1.9)".to_string()]);
}

#[test]
fn errors_are_logged_with_fitting_levels() {
    let lines = AppError::NotFound.log_entries();
    assert_eq!(lines.len(), 1);
    assert!(lines[0].0 == LogLevel::Debug);
    let scan = AppError::MediaScan("disk gone".to_string()).log_entries();
    assert_eq!(scan.len(), 2);
    assert!(scan[0].0 == LogLevel::Warn);
    assert_eq!(scan[0].1, "Media scan error: disk gone");
    assert_eq!(scan[1].1, "Media scanning can be retried or directories can be reconfigured");
    let internal = AppError::Internal("boom".to_string()).log_entries();
    assert!(internal[0].0 == LogLevel::Error);
    assert_eq!(internal[0].1, "Application error: Internal Server Error");
}

#[test]
fn recent_modifications_fall_within_the_window() {
    let now = vuio::clock::Timestamp { secs: 1_000, nanos: 500 };
    let at = |secs: u64, nanos: u32| vuio::clock::Timestamp { secs, nanos };
    assert!(at(990, 0).within_last(now, 60));
    assert!(at(940, 501).within_last(now, 60));
    assert!(!at(940, 500).within_last(now, 60));
    assert!(!at(900, 0).within_last(now, 60));
    assert!(at(0, 0).within_last(at(30, 0), 60));
    assert!(!at(0, 0).within_last(at(60, 0), 60));
}

#[test]
fn retries_double_the_wait_up_to_thirty_seconds() {
    assert_eq!(retry_step(1, 3, 100), RetryStep::Wait { wait_ms: 100, next_ms: Some(200) });
    assert_eq!(retry_step(2, 3, 200), RetryStep::Wait { wait_ms: 200, next_ms: Some(400) });
    assert_eq!(retry_step(3, 3, 400), RetryStep::GiveUp);
    assert_eq!(retry_step(1, 5, 20_000), RetryStep::Wait { wait_ms: 20_000, next_ms: Some(30_000) });
    assert_eq!(retry_step(1, 5, 30_000), RetryStep::Wait { wait_ms: 30_000, next_ms: Some(30_000) });
    assert_eq!(retry_step(1, 2, u64::MAX), RetryStep::Wait { wait_ms: u64::MAX, next_ms: None });
    assert_eq!(retry_step(2, 2, u64::MAX), RetryStep::GiveUp);
}
