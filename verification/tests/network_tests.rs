use vuio::ip::IpAddress;
use vuio::linux_net::{determine_linux_interface_type, ip_addr_flags_in_order, parse_ip_addr_output};
use vuio::macos_net::{
    determine_macos_interface_type, get_preferred_multicast_interface, parse_ifconfig_listing, parse_ifconfig_output,
    select_multicast_interface,
};
use vuio::network::{filter_suitable_interfaces, prioritize_interfaces, SsdpConfig};
use vuio::platform::{requires_elevation, InterfaceType, NetworkInterface, OsType};
use vuio::platform_error::PlatformError;
use vuio::windows_net::{determine_windows_interface_type, parse_ipconfig_output};

fn v4(a: u8, b: u8, c: u8, d: u8) -> IpAddress {
    IpAddress::V4(a, b, c, d)
}

fn create_test_interface(name: &str, ip: IpAddress, interface_type: InterfaceType) -> NetworkInterface {
    NetworkInterface {
        name: name.to_string(),
        ip_address: ip,
        is_loopback: false,
        is_up: true,
        supports_multicast: true,
        interface_type,
    }
}

#[test]
fn test_preferred_interface() {
    let interface = get_preferred_multicast_interface();
    assert!(interface.is_some());
    assert_eq!(interface.unwrap(), "en0");
}

#[test]
fn test_ifconfig_parser_real_world() {
    let ifconfig_output = r#"
lo0: flags=8049<UP,LOOPBACK,RUNNING,MULTICAST> mtu 16384
	options=1203<RXCSUM,TXCSUM,TXSTATUS,SW_TIMESTAMP>
	inet 127.0.0.1 netmask 0xff000000 
	inet6 ::1 prefixlen 128 
	inet6 fe80::1%lo0 prefixlen 64 scopeid 0x1 
	nd6 options=201<PERFORMNUD,DAD>
en0: flags=8863<UP,BROADCAST,SMART,RUNNING,SIMPLEX,MULTICAST> mtu 1500
	options=400<CHANNEL_IO>
	ether 1a:2b:3c:4d:5e:6f 
	inet6 fe80::1c77:41a:929:2102%en0 prefixlen 64 secured scopeid 0x6 
	inet 192.168.1.126 netmask 0xffffff00 broadcast 192.168.1.255
	nd6 options=201<PERFORMNUD,DAD>
	media: autoselect
	status: active
utun0: flags=8051<UP,POINTOPOINT,RUNNING,MULTICAST> mtu 1380
	inet 10.8.0.2 --> 10.8.0.1 netmask 0xffffffff 
"#;
    let interfaces = parse_ifconfig_listing(ifconfig_output);
    assert_eq!(interfaces.len(), 2);

    let en0 = interfaces.iter().find(|i| i.name == "en0").unwrap();
    assert!(en0.ip_address == v4(192, 168, 1, 126));
    assert!(en0.is_up);
    assert!(en0.supports_multicast);

    let utun0 = interfaces.iter().find(|i| i.name == "utun0").unwrap();
    assert!(utun0.ip_address == v4(10, 8, 0, 2));
    assert!(utun0.is_up);
    assert!(utun0.supports_multicast);
}

#[test]
fn linux_test_requires_elevation() {
    assert!(requires_elevation(80));
    assert!(requires_elevation(443));
    assert!(!requires_elevation(8080));
    assert!(!requires_elevation(9090));
}

#[test]
fn linux_test_interface_type_determination() {
    assert!(determine_linux_interface_type("eth0") == InterfaceType::Ethernet);
    assert!(determine_linux_interface_type("enp0s3") == InterfaceType::Ethernet);
    assert!(determine_linux_interface_type("wlan0") == InterfaceType::WiFi);
    assert!(determine_linux_interface_type("wlp2s0") == InterfaceType::WiFi);
    assert!(determine_linux_interface_type("tun0") == InterfaceType::VPN);
    assert!(determine_linux_interface_type("lo") == InterfaceType::Loopback);
}

#[test]
fn test_ip_addr_parsing() {
    let sample_output = r#"
1: lo: <LOOPBACK,UP,LOWER_UP> mtu 65536 qdisc noqueue state UNKNOWN group default qlen 1000
    link/loopback 00:00:00:00:00:00 brd 00:00:00:00:00:00
    inet 127.0.0.1/8 scope host lo
       valid_lft forever preferred_lft forever
2: eth0: <BROADCAST,MULTICAST,UP,LOWER_UP> mtu 1500 qdisc pfifo_fast state UP group default qlen 1000
    link/ether 08:00:27:12:34:56 brd ff:ff:ff:ff:ff:ff
    inet 192.168.1.100/24 brd 192.168.1.255 scope global dynamic eth0
       valid_lft 86400sec preferred_lft 86400sec
3: wlan0: <BROADCAST,MULTICAST,UP,LOWER_UP> mtu 1500 qdisc mq state UP group default qlen 1000
    link/ether 00:11:22:33:44:55 brd ff:ff:ff:ff:ff:ff
    inet 192.168.1.101/24 brd 192.168.1.255 scope global dynamic wlan0
       valid_lft 86400sec preferred_lft 86400sec
"#;
    assert!(ip_addr_flags_in_order(sample_output));
    let interfaces = parse_ip_addr_output(sample_output);
    assert_eq!(interfaces.len(), 2);

    let eth0 = &interfaces[0];
    assert_eq!(eth0.name, "eth0");
    assert!(eth0.ip_address == v4(192, 168, 1, 100));
    assert!(eth0.interface_type == InterfaceType::Ethernet);
    assert!(eth0.is_up);
    assert!(eth0.supports_multicast);

    let wlan0 = &interfaces[1];
    assert_eq!(wlan0.name, "wlan0");
    assert!(wlan0.ip_address == v4(192, 168, 1, 101));
    assert!(wlan0.interface_type == InterfaceType::WiFi);
}

#[test]
fn macos_test_requires_elevation() {
    assert!(requires_elevation(80));
    assert!(requires_elevation(443));
    assert!(!requires_elevation(8080));
    assert!(!requires_elevation(9090));
}

#[test]
fn macos_test_interface_type_determination() {
    assert!(determine_macos_interface_type("en0") == InterfaceType::Ethernet);
    assert!(determine_macos_interface_type("en1") == InterfaceType::WiFi);
    assert!(determine_macos_interface_type("utun0") == InterfaceType::VPN);
    assert!(determine_macos_interface_type("lo0") == InterfaceType::Loopback);
}

#[test]
fn test_ifconfig_parsing() {
    let sample_output = r#"
lo0: flags=8049<UP,LOOPBACK,RUNNING,MULTICAST> mtu 16384
	inet 127.0.0.1 netmask 0xff000000
en0: flags=8863<UP,BROADCAST,SMART,RUNNING,SIMPLEX,MULTICAST> mtu 1500
	inet 192.168.1.100 netmask 0xffffff00 broadcast 192.168.1.255
	status: active
en1: flags=8863<UP,BROADCAST,SMART,RUNNING,SIMPLEX,MULTICAST> mtu 1500
	inet 192.168.1.101 netmask 0xffffff00 broadcast 192.168.1.255
	status: active
"#;
    let interfaces = parse_ifconfig_output(sample_output);
    assert_eq!(interfaces.len(), 2);

    let en0 = &interfaces[0];
    assert_eq!(en0.name, "en0");
    assert!(en0.ip_address == v4(192, 168, 1, 100));
    assert!(en0.interface_type == InterfaceType::Ethernet);
    assert!(en0.is_up);
    assert!(en0.supports_multicast);

    let en1 = &interfaces[1];
    assert_eq!(en1.name, "en1");
    assert!(en1.ip_address == v4(192, 168, 1, 101));
    assert!(en1.interface_type == InterfaceType::WiFi);
}

#[test]
fn test_preferred_interface_selection() {
    let interfaces = vec![
        create_test_interface("en1", v4(192, 168, 1, 101), InterfaceType::WiFi),
        create_test_interface("en0", v4(192, 168, 1, 100), InterfaceType::Ethernet),
        create_test_interface("utun0", v4(10, 0, 0, 1), InterfaceType::VPN),
    ];

    let preferred = select_multicast_interface(&interfaces);
    assert!(preferred.is_some());
    assert_eq!(preferred.unwrap().name, "en0");
}

#[test]
fn test_ssdp_config_default() {
    let config = SsdpConfig::default();
    assert_eq!(config.primary_port, 1900);
    assert!(!config.fallback_ports.is_empty());
    assert!(config.multicast_address == v4(239, 255, 255, 250));
}

#[test]
fn test_interface_filtering() {
    let interfaces = vec![
        NetworkInterface {
            name: "lo".to_string(),
            ip_address: v4(127, 0, 0, 1),
            is_loopback: true,
            is_up: true,
            supports_multicast: false,
            interface_type: InterfaceType::Loopback,
        },
        create_test_interface("eth0", v4(192, 168, 1, 100), InterfaceType::Ethernet),
        NetworkInterface {
            name: "down_interface".to_string(),
            ip_address: v4(192, 168, 1, 101),
            is_loopback: false,
            is_up: false,
            supports_multicast: true,
            interface_type: InterfaceType::Ethernet,
        },
    ];

    let filtered = filter_suitable_interfaces(interfaces);
    assert_eq!(filtered.len(), 1);
    assert_eq!(filtered[0].name, "eth0");
}

#[test]
fn test_interface_prioritization() {
    let interfaces = vec![
        create_test_interface("vpn0", v4(10, 0, 0, 1), InterfaceType::VPN),
        create_test_interface("wlan0", v4(192, 168, 1, 100), InterfaceType::WiFi),
        create_test_interface("eth0", v4(192, 168, 1, 101), InterfaceType::Ethernet),
    ];

    let prioritized = prioritize_interfaces(interfaces);
    assert_eq!(prioritized[0].name, "eth0");
    assert_eq!(prioritized[1].name, "wlan0");
    assert_eq!(prioritized[2].name, "vpn0");
}

#[test]
fn windows_test_requires_elevation() {
    assert!(requires_elevation(80));
    assert!(requires_elevation(443));
    assert!(!requires_elevation(8080));
    assert!(!requires_elevation(9090));
}

#[test]
fn windows_test_interface_type_determination() {
    assert!(determine_windows_interface_type("Ethernet") == InterfaceType::Ethernet);
    assert!(determine_windows_interface_type("Wi-Fi") == InterfaceType::WiFi);
    assert!(determine_windows_interface_type("VPN Connection") == InterfaceType::VPN);
    assert!(determine_windows_interface_type("Loopback Pseudo-Interface") == InterfaceType::Loopback);
}

#[test]
fn test_ipconfig_parsing() {
    let sample_output = r#"
Windows IP Configuration

Ethernet adapter Ethernet:

   Connection-specific DNS Suffix  . : 
   IPv4 Address. . . . . . . . . . . : 192.168.1.100
   Subnet Mask . . . . . . . . . . . : 255.255.255.0
   Default Gateway . . . . . . . . . : 192.168.1.1

Wireless LAN adapter Wi-Fi:

   Connection-specific DNS Suffix  . : 
   IPv4 Address. . . . . . . . . . . : 192.168.1.101
   Subnet Mask . . . . . . . . . . . : 255.255.255.0
   Default Gateway . . . . . . . . . : 192.168.1.1
"#;
    let interfaces = parse_ipconfig_output(sample_output);
    assert_eq!(interfaces.len(), 2);

    let ethernet = &interfaces[0];
    assert_eq!(ethernet.name, "Ethernet adapter Ethernet");
    assert!(ethernet.ip_address == v4(192, 168, 1, 100));
    assert!(ethernet.interface_type == InterfaceType::Ethernet);

    let wifi = &interfaces[1];
    assert_eq!(wifi.name, "Wireless LAN adapter Wi-Fi");
    assert!(wifi.ip_address == v4(192, 168, 1, 101));
    assert!(wifi.interface_type == InterfaceType::WiFi);
}

#[test]
fn ssdp_setup_uses_the_first_port_that_binds() {
    let config = SsdpConfig::default();
    let up = |name: &str, multicast: bool| NetworkInterface {
        name: name.to_string(),
        ip_address: IpAddress::V4(192, 168, 1, 9),
        is_loopback: false,
        is_up: true,
        supports_multicast: multicast,
        interface_type: InterfaceType::Ethernet,
    };
    let (port, ifaces) = config.ssdp_setup(OsType::Linux, Some(0), vec![up("eth0", true), up("eth1", false)], None).unwrap();
    assert_eq!(port, 1900);
    assert_eq!(ifaces.len(), 1);
    assert_eq!(ifaces[0].name, "eth0");
    match config.ssdp_setup(OsType::MacOS, Some(0), vec![up("en0", false)], None) {
        Err(PlatformError::NetworkConfig(m)) => assert_eq!(m, "No suitable network interfaces found on macOS"),
        other => panic!("unexpected {:?}", other),
    }
    let (port, ifaces) = config.ssdp_setup(OsType::Windows, Some(2), vec![up("Ethernet", false)], None).unwrap();
    assert_eq!(port, 8081);
    assert!(ifaces.is_empty());
    match config.ssdp_setup(OsType::Windows, None, vec![], None) {
        Err(PlatformError::NetworkConfig(m)) => assert_eq!(m, "All ports failed on Windows"),
        other => panic!("unexpected {:?}", other),
    }
    match config.ssdp_setup(OsType::Linux, None, vec![], Some(PlatformError::NetworkConfig("Failed to bind to port 9090 on Linux".to_string()))) {
        Err(PlatformError::NetworkConfig(m)) => assert_eq!(m, "Failed to bind to port 9090 on Linux"),
        other => panic!("unexpected {:?}", other),
    }
}
