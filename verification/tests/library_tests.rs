use vuio::adaptation::{compare_network_interfaces, needs_cache_reload, plan_configuration_changes, Degradation, PrimaryChange};
use vuio::app_error::AppError;
use vuio::upnp::parse_range_header;
use vuio::backups::{is_backup_file, stale_backups, MAX_BACKUPS};
use vuio::browse::{browse_listing, generate_browse_response, render_browse_response};
use vuio::clock::Timestamp;
use vuio::config::{AppConfig, ConfigValidationError, MonitoredDirectoryConfig, NetworkInterfaceConfig};
use vuio::database::MediaFile;
use vuio::ip::IpAddress;
use vuio::library::{
    add_uncached, deletion_changed_library, is_supported_media_path, is_within, next_update_id, paths_under,
    paths_within, plan_event, remove_cached_path, remove_cached_under, replace_cached, EventAction,
};
use vuio::media::ScanResult;
use vuio::operation_queue::{
    action_for_change, action_for_creation, action_for_move, apply_name_metadata, initial_sync_plan, relocated,
    OperationQueue, PathAction, QueuedOperation,
};
use vuio::ordering::{lex_le_exec, stable_order};
use vuio::platform::{InterfaceType, NetworkInterface, OsType, PlatformCapabilities, PlatformInfo};
use vuio::platform_config::{PlatformConfig, UserDirs};
use vuio::watcher::{convert_events, is_media_file, is_relevant, FileSystemEvent, RawEvent, WatchEventKind, WatchedPath};

fn record(id: i64, path: &str, mime: &str, size: u64) -> MediaFile {
    let t = Timestamp { secs: 1_700_000_000, nanos: 0 };
    MediaFile {
        id: Some(id),
        path: path.to_string(),
        filename: path.rsplit('/').next().unwrap().to_string(),
        size,
        modified: t,
        mime_type: mime.to_string(),
        duration_ms: None,
        title: None,
        artist: None,
        album: None,
        created_at: t,
        updated_at: t,
    }
}

fn paths(files: &[MediaFile]) -> Vec<String> {
    files.iter().map(|f| f.path.clone()).collect()
}

// ---------------------------------------------------------------------------
// Scan results
// ---------------------------------------------------------------------------

#[test]
fn test_scan_result_operations() {
    let mut result1 = ScanResult::new();
    result1.total_scanned = 5;
    result1.new_files.push(record(1, "/test1.mp4", "video/mp4", 1024));

    let mut result2 = ScanResult::new();
    result2.total_scanned = 3;
    result2.updated_files.push(record(2, "/test2.mp4", "video/mp4", 2048));

    result1.merge(result2);
    assert_eq!(result1.total_scanned, 8);
    assert_eq!(result1.new_files.len(), 1);
    assert_eq!(result1.updated_files.len(), 1);

    let summary = result1.summary();
    assert!(summary.contains("8 files"));
    assert!(summary.contains("1 new"));
    assert!(summary.contains("1 updated"));
}

// ---------------------------------------------------------------------------
// Watcher
// ---------------------------------------------------------------------------

#[test]
fn mod_test_media_file_detection() {
    assert!(is_media_file("test.mp4"));
    assert!(is_media_file("test.MP3"));
    assert!(is_media_file("test.jpg"));
    assert!(!is_media_file("test.txt"));
    assert!(!is_media_file("test"));
}

#[test]
fn integration_test_media_file_detection() {
    assert!(is_media_file("test.mp4"));
    assert!(is_media_file("test.MP3"));
    assert!(!is_media_file("test.txt"));
}

fn wp(path: &str, is_dir: bool) -> WatchedPath {
    WatchedPath { path: path.to_string(), is_dir }
}

#[test]
fn notifications_become_media_events() {
    let events = vec![
        RawEvent { kind: WatchEventKind::Create, paths: vec![wp("/m/a.mp4", false), wp("/m/notes.txt", false), wp("/m/new", true)] },
        RawEvent { kind: WatchEventKind::Modify, paths: vec![wp("/m/b.MKV", false), wp("/m/dir", true)] },
        RawEvent { kind: WatchEventKind::Remove, paths: vec![wp("/m/gone", true), wp("/m/c.flac", false)] },
        RawEvent { kind: WatchEventKind::Access, paths: vec![wp("/m/d.png", false)] },
    ];
    let out = convert_events(&events);
    assert_eq!(out.len(), 6);
    assert!(matches!(&out[0], FileSystemEvent::Created(p) if p == "/m/a.mp4"));
    assert!(matches!(&out[1], FileSystemEvent::Created(p) if p == "/m/new"));
    assert!(matches!(&out[2], FileSystemEvent::Modified(p) if p == "/m/b.MKV"));
    assert!(matches!(&out[3], FileSystemEvent::Deleted(p) if p == "/m/gone"));
    assert!(matches!(&out[4], FileSystemEvent::Deleted(p) if p == "/m/c.flac"));
    assert!(matches!(&out[5], FileSystemEvent::Modified(p) if p == "/m/d.png"));
}

#[test]
fn irrelevant_notifications_give_nothing() {
    let e = RawEvent { kind: WatchEventKind::Create, paths: vec![wp("/m/readme.txt", false)] };
    assert!(!is_relevant(&e));
    assert!(convert_events(&vec![e]).is_empty());
    let r = RawEvent { kind: WatchEventKind::Modify, paths: vec![wp("/m/dir", true)] };
    assert!(is_relevant(&r));
}

// ---------------------------------------------------------------------------
// Operation queue and synchronisation
// ---------------------------------------------------------------------------

#[test]
fn latest_operation_for_a_path_wins() {
    let mut q = OperationQueue::new();
    q.record_event(FileSystemEvent::Created("/m/a.mp4".to_string()));
    q.record_event(FileSystemEvent::Modified("/m/b.mp4".to_string()));
    q.record_event(FileSystemEvent::Deleted("/m/a.mp4".to_string()));
    q.record_event(FileSystemEvent::Renamed { from: "/m/x.mp4".to_string(), to: "/m/b.mp4".to_string() });
    assert_eq!(q.len(), 2);
    let ops = q.drain();
    assert_eq!(q.len(), 0);
    assert_eq!(ops.len(), 2);
    assert!(ops.iter().any(|o| matches!(o, QueuedOperation::Remove(p) if p == "/m/a.mp4")));
    assert!(ops.iter().any(|o| matches!(o, QueuedOperation::Move { from, to } if from == "/m/x.mp4" && to == "/m/b.mp4")));
}

#[test]
fn initial_sync_adds_and_removes() {
    let found = vec!["/m/a.mp4".to_string(), "/m/b.mp4".to_string()];
    let existing = vec!["/m/b.mp4".to_string(), "/m/c.mp4".to_string()];
    let (add, remove) = initial_sync_plan(&found, &existing);
    assert_eq!(add, vec!["/m/a.mp4".to_string()]);
    assert_eq!(remove, vec!["/m/c.mp4".to_string()]);
}

#[test]
fn title_and_artist_from_file_name() {
    let mut f = record(1, "/music/Queen - Bohemian Rhapsody.mp3", "audio/mpeg", 10);
    apply_name_metadata(&mut f);
    assert_eq!(f.artist.as_deref(), Some("Queen"));
    assert_eq!(f.title.as_deref(), Some("Bohemian Rhapsody"));

    let mut g = record(2, "/videos/holiday.mkv", "video/x-matroska", 10);
    apply_name_metadata(&mut g);
    assert_eq!(g.title.as_deref(), Some("holiday"));
    assert_eq!(g.artist, None);

    let mut h = record(3, "/videos/.hidden", "video/mp4", 10);
    apply_name_metadata(&mut h);
    assert_eq!(h.title.as_deref(), Some(".hidden"));
}

#[test]
fn moved_record_follows_the_move() {
    let f = record(7, "/m/old.mp4", "video/mp4", 99);
    let t = Timestamp { secs: 42, nanos: 7 };
    let r = relocated(&f, "/m/sub/new.mp4", t);
    assert_eq!(r.path, "/m/sub/new.mp4");
    assert_eq!(r.filename, "new.mp4");
    assert_eq!(r.updated_at, t);
    assert_eq!(r.id, Some(7));
    assert_eq!(r.size, 99);
}

// ---------------------------------------------------------------------------
// Library cache
// ---------------------------------------------------------------------------

#[test]
fn events_are_planned() {
    let created = FileSystemEvent::Created("/m/a.mp4".to_string());
    assert!(matches!(plan_event(&created, false), EventAction::AddFile(p) if p == "/m/a.mp4"));
    assert!(matches!(plan_event(&created, true), EventAction::ScanDirectory(_)));
    let text = FileSystemEvent::Created("/m/a.txt".to_string());
    assert!(matches!(plan_event(&text, false), EventAction::Ignore));
    let moved = FileSystemEvent::Renamed { from: "/m/a.mp4".to_string(), to: "/m/b.mkv".to_string() };
    assert!(matches!(plan_event(&moved, false), EventAction::MoveFile { .. }));
    assert!(matches!(plan_event(&moved, true), EventAction::RescanDirectory { .. }));
    let deleted = FileSystemEvent::Deleted("/m/x".to_string());
    assert!(matches!(plan_event(&deleted, false), EventAction::RemovePath(p) if p == "/m/x"));
    assert!(is_supported_media_path("/m/song.FLAC"));
    assert!(!is_supported_media_path("/m/song"));
}

#[test]
fn cache_adds_only_uncached_paths() {
    let mut cache = vec![record(1, "/m/a.mp4", "video/mp4", 1)];
    let found = vec![record(2, "/m/a.mp4", "video/mp4", 2), record(3, "/m/b.mp4", "video/mp4", 3), record(4, "/m/b.mp4", "video/mp4", 4)];
    let added = add_uncached(&mut cache, &found);
    assert_eq!(added, 1);
    assert_eq!(paths(&cache), vec!["/m/a.mp4".to_string(), "/m/b.mp4".to_string()]);
    assert_eq!(cache[0].id, Some(1));
    assert_eq!(cache[1].id, Some(3));
}

#[test]
fn cache_replaces_by_path() {
    let mut cache = vec![record(1, "/m/a.mp4", "video/mp4", 1), record(2, "/m/b.mp4", "video/mp4", 2)];
    assert!(replace_cached(&mut cache, record(9, "/m/b.mp4", "video/mp4", 500)));
    assert_eq!(cache[1].size, 500);
    assert!(!replace_cached(&mut cache, record(9, "/m/z.mp4", "video/mp4", 500)));
    assert_eq!(cache.len(), 2);
}

#[test]
fn cache_forgets_deleted_paths() {
    let mut cache = vec![
        record(1, "/Media/Movies/a.mp4", "video/mp4", 1),
        record(2, "/media/movies/b.mp4", "video/mp4", 2),
        record(3, "/media/music/c.mp3", "audio/mpeg", 3),
    ];
    let gone = remove_cached_under(&mut cache, "/media/MOVIES");
    assert_eq!(gone, 2);
    assert_eq!(paths(&cache), vec!["/media/music/c.mp3".to_string()]);
    let again = remove_cached_path(&mut cache, "/media/music/c.mp3");
    assert_eq!(again, 1);
    assert!(cache.is_empty());
    assert!(deletion_changed_library(0, 2));
    assert!(!deletion_changed_library(0, 0));
}

#[test]
fn stored_paths_under_and_within() {
    let files = vec![
        record(1, "/m/Show/e1.mkv", "video/x-matroska", 1),
        record(2, "/m/ShowTime/e2.mkv", "video/x-matroska", 2),
        record(3, "/m/show/e3.mkv", "video/x-matroska", 3),
    ];
    assert_eq!(paths_under(&files, "/m/show"), vec!["/m/Show/e1.mkv".to_string(), "/m/ShowTime/e2.mkv".to_string(), "/m/show/e3.mkv".to_string()]);
    assert_eq!(paths_within(&files, "/m/Show"), vec!["/m/Show/e1.mkv".to_string()]);
    assert!(is_within("/m/Show//e1.mkv", "/m/Show/"));
    assert!(!is_within("/m/ShowTime/e2.mkv", "/m/Show"));
}

#[test]
fn update_id_wraps() {
    assert_eq!(next_update_id(0), 1);
    assert_eq!(next_update_id(41), 42);
    assert_eq!(next_update_id(u32::MAX), 0);
}

// ---------------------------------------------------------------------------
// Adaptation
// ---------------------------------------------------------------------------

fn user_dirs() -> UserDirs {
    UserDirs {
        home: Some("/home/c".to_string()),
        data: None,
        data_local: None,
        config: None,
        cache: None,
        video: None,
        document: None,
        audio: None,
        picture: None,
    }
}

fn config_with(dirs: &[&str]) -> AppConfig {
    let p = PlatformConfig::for_current_platform(OsType::Linux, &user_dirs(), &Vec::new());
    let mut c = AppConfig::default_for_platform(&p, &Vec::new(), Some("/srv".to_string()));
    c.media.directories = dirs
        .iter()
        .map(|d| MonitoredDirectoryConfig { path: d.to_string(), recursive: true, extensions: None, exclude_patterns: None })
        .collect();
    c
}

#[test]
fn configuration_changes_are_planned() {
    let old = config_with(&["/a", "/b"]);
    let mut new = config_with(&["/b", "/c", "/c"]);
    new.server.port = old.server.port + 1;
    new.network.interface_selection = NetworkInterfaceConfig::Specific("eth0".to_string());
    let plan = plan_configuration_changes(&old, &new);
    assert_eq!(plan.added_directories.len(), 1);
    assert_eq!(plan.added_directories[0].path, "/c");
    assert_eq!(plan.removed_directories, vec!["/a".to_string()]);
    assert!(plan.directories_changed);
    assert!(plan.server_port_changed);
    assert!(plan.interface_selection_changed);
    assert!(plan.network_changed());
    assert!(plan.server_changed());
    assert!(plan.changes_detected());

    let same = plan_configuration_changes(&old, &old);
    assert!(!same.changes_detected());
    assert!(same.added_directories.is_empty());

    assert!(needs_cache_reload(&vec![false, true], &vec![]));
    assert!(needs_cache_reload(&vec![], &vec![0, 3]));
    assert!(!needs_cache_reload(&vec![false], &vec![0]));
}

fn iface(name: &str, ip: IpAddress, up: bool, multicast: bool, t: InterfaceType) -> NetworkInterface {
    NetworkInterface { name: name.to_string(), ip_address: ip, is_loopback: false, is_up: up, supports_multicast: multicast, interface_type: t }
}

fn info(ifaces: Vec<NetworkInterface>) -> PlatformInfo {
    PlatformInfo {
        os_type: OsType::Linux,
        version: "6.1".to_string(),
        capabilities: PlatformCapabilities::for_os(OsType::Linux),
        network_interfaces: ifaces,
        metadata: Vec::new(),
    }
}

#[test]
fn network_changes_are_reported() {
    let before = info(vec![
        iface("eth0", IpAddress::V4(192, 168, 1, 2), true, true, InterfaceType::Ethernet),
        iface("wlan0", IpAddress::V4(192, 168, 1, 3), true, true, InterfaceType::WiFi),
    ]);
    let now = info(vec![
        iface("wlan0", IpAddress::V4(10, 0, 0, 3), false, true, InterfaceType::WiFi),
        iface("tun0", IpAddress::V4(10, 8, 0, 1), true, true, InterfaceType::VPN),
    ]);
    let r = compare_network_interfaces(&before, &now);
    assert!(r.interfaces_changed);
    assert_eq!(r.removed, vec![0]);
    assert_eq!(r.added, vec![1]);
    assert_eq!(r.address_changed, vec![(1, 0)]);
    assert_eq!(r.status_changed, vec![(1, 0)]);
    assert!(r.primary == PrimaryChange::Changed);
    assert!(r.degradation == Degradation::Normal);

    let same = compare_network_interfaces(&before, &before);
    assert!(!same.interfaces_changed);
    assert!(same.primary == PrimaryChange::Unchanged);

    let empty = compare_network_interfaces(&before, &info(vec![]));
    assert!(empty.primary == PrimaryChange::Lost);
    assert!(empty.degradation == Degradation::NoInterfaces);

    let silent = info(vec![iface("eth1", IpAddress::V4(1, 2, 3, 4), true, false, InterfaceType::Ethernet)]);
    let r2 = compare_network_interfaces(&info(vec![]), &silent);
    assert!(r2.primary == PrimaryChange::Unchanged);
    assert!(r2.degradation == Degradation::NoMulticast);
}

// ---------------------------------------------------------------------------
// Backups
// ---------------------------------------------------------------------------

#[test]
fn only_the_newest_backups_are_kept() {
    let ts = |s: u64| Timestamp { secs: s, nanos: 0 };
    let backups: Vec<(String, Timestamp)> = (0..7u64).map(|i| (format!("b{}.db", i), ts(100 + i))).collect();
    let stale = stale_backups(&backups, MAX_BACKUPS);
    assert_eq!(stale, vec!["b0.db".to_string(), "b1.db".to_string()]);
    assert!(stale_backups(&backups[..5].to_vec(), MAX_BACKUPS).is_empty());
    assert!(is_backup_file("/var/backups/vuio_shutdown_backup_20240101_000000.db"));
    assert!(!is_backup_file("/var/backups/notes.DB"));
}

// ---------------------------------------------------------------------------
// Ordering and browsing
// ---------------------------------------------------------------------------

#[test]
fn stable_order_by_key() {
    let keys: Vec<Vec<char>> = ["b", "a", "b", "A"].iter().map(|s| s.chars().collect()).collect();
    assert_eq!(stable_order(&keys), vec![3, 1, 0, 2]);
    let a: Vec<char> = "abc".chars().collect();
    let b: Vec<char> = "abd".chars().collect();
    assert!(lex_le_exec(&a, &b));
    assert!(!lex_le_exec(&b, &a));
}

#[test]
fn browse_lists_folders_and_items() {
    let files = vec![
        record(1, "/media/Zeta.mp4", "video/mp4", 10),
        record(2, "/media/alpha.mp4", "video/mp4", 20),
        record(3, "/media/Shows/s1.mkv", "video/x-matroska", 30),
        record(4, "/media/anime/a1.mkv", "video/x-matroska", 40),
        record(5, "/media/song.mp3", "audio/mpeg", 50),
        record(6, "/elsewhere/x.mp4", "video/mp4", 60),
    ];
    let (folders, items) = browse_listing("video", &files, "/media");
    assert_eq!(folders, vec!["anime".to_string(), "Shows".to_string()]);
    assert_eq!(items, vec![1, 0]);

    let (sub_folders, sub_items) = browse_listing("video/Shows", &files, "/media");
    assert!(sub_folders.is_empty());
    assert_eq!(sub_items, vec![2]);

    let xml = render_browse_response("video/Shows", &files, &sub_folders, &sub_items, "10.0.0.5", 8080);
    assert!(xml.contains("<NumberReturned>1</NumberReturned>"));
    assert!(xml.contains("http://10.0.0.5:8080/media/3"));
    assert!(xml.contains("&lt;item id=&quot;3&quot;"));

    let root = generate_browse_response("0", &files, "/media", "10.0.0.5", 8080);
    assert!(root.contains("<NumberReturned>3</NumberReturned>"));
    assert!(root.contains("Pictures"));

    let whole = generate_browse_response("video", &files, "/media", "10.0.0.5", 8080);
    assert!(whole.contains("<TotalMatches>4</TotalMatches>"));
    let alpha = whole.find("alpha.mp4").unwrap();
    let zeta = whole.find("Zeta.mp4").unwrap();
    assert!(alpha < zeta);
}

// ---------------------------------------------------------------------------
// Configuration validation
// ---------------------------------------------------------------------------

#[test]
fn network_settings_are_validated() {
    let mut c = config_with(&["/media"]);
    c.server.interface = "0.0.0.0".to_string();
    assert!(c.validate_network_settings().is_ok());
    c.server.interface = "::1".to_string();
    assert!(c.validate_network_settings().is_ok());
    c.server.interface = "not-an-address".to_string();
    match c.validate_network_settings() {
        Err(ConfigValidationError::InvalidServerAddress(a)) => assert_eq!(a, "not-an-address"),
        _ => panic!("expected an invalid address"),
    }
    c.network.interface_selection = NetworkInterfaceConfig::Specific(String::new());
    assert!(matches!(c.validate_network_settings(), Err(ConfigValidationError::EmptyInterfaceName)));
    let e = ConfigValidationError::EmptyInterfaceName;
    assert_eq!(e.message(), "Specific network interface name cannot be empty");
}

#[test]
fn directories_are_validated() {
    let windows = PlatformConfig::for_current_platform(OsType::Windows, &user_dirs(), &Vec::new());
    let c = config_with(&["C:\\Media", "C:\\bad|name", "C:\\CON"]);
    match c.validate_directories(&windows) {
        Err(ConfigValidationError::InvalidDirectory { path, .. }) => assert_eq!(path, "C:\\bad|name"),
        _ => panic!("expected an invalid directory"),
    }
    let ok = config_with(&["C:\\Media"]);
    assert!(ok.validate_directories(&windows).is_ok());
}

// ---------------------------------------------------------------------------
// Addresses
// ---------------------------------------------------------------------------

#[test]
fn ipv6_addresses_are_written_compactly() {
    assert_eq!(IpAddress::V6(0, 0, 0, 0, 0, 0, 0, 1).to_text(), "::1");
    assert_eq!(IpAddress::V6(0, 0, 0, 0, 0, 0, 0, 0).to_text(), "::");
    assert_eq!(IpAddress::V6(0xfe80, 0, 0, 0, 0x1c77, 0x41a, 0x929, 0x2102).to_text(), "fe80::1c77:41a:929:2102");
    assert_eq!(IpAddress::V6(0x2001, 0xdb8, 0, 1, 0, 0, 0, 1).to_text(), "2001:db8:0:1::1");
    assert_eq!(IpAddress::V6(0x2001, 0xdb8, 0, 0, 1, 0, 0, 1).to_text(), "2001:db8::1:0:0:1");
    assert_eq!(IpAddress::V6(0, 0, 0, 0, 0, 0xffff, 0xc0a8, 0x0101).to_text(), "::ffff:192.168.1.1");
    assert_eq!(IpAddress::V4(192, 168, 0, 10).to_text(), "192.168.0.10");
}

#[test]
fn integration_actions_follow_what_is_known() {
    assert_eq!(action_for_creation(false, false, true, false), PathAction::Ignore);
    assert_eq!(action_for_creation(true, true, false, false), PathAction::ScanDirectory);
    assert_eq!(action_for_creation(true, false, false, false), PathAction::Ignore);
    assert_eq!(action_for_creation(true, false, true, true), PathAction::Refresh);
    assert_eq!(action_for_creation(true, false, true, false), PathAction::Store);
    assert_eq!(action_for_change(false, false, true, true), PathAction::Remove);
    assert_eq!(action_for_change(true, false, true, true), PathAction::Refresh);
    assert_eq!(action_for_change(true, false, true, false), PathAction::Store);
    assert_eq!(action_for_move(false, true, false, true, false), PathAction::Remove);
    assert_eq!(action_for_move(true, true, false, true, false), PathAction::Relocate);
    assert_eq!(action_for_move(true, false, false, true, false), PathAction::Store);
    assert_eq!(action_for_move(true, false, false, true, true), PathAction::Refresh);
    for exists in [false, true] {
        for is_dir in [false, true] {
            for media in [false, true] {
                assert_ne!(action_for_creation(exists, is_dir, media, true), PathAction::Store);
                assert_ne!(action_for_change(exists, is_dir, media, true), PathAction::Store);
                assert_ne!(action_for_move(exists, false, is_dir, media, true), PathAction::Store);
            }
        }
    }
}

#[test]
fn byte_ranges_follow_the_header() {
    assert!(matches!(parse_range_header("bytes=-500", 1000), Ok((500, 999))));
    assert!(matches!(parse_range_header("bytes=-5000", 1000), Ok((0, 999))));
    assert!(matches!(parse_range_header("bytes=100-", 1000), Ok((100, 999))));
    assert!(matches!(parse_range_header("bytes=100-199", 1000), Ok((100, 199))));
    assert!(matches!(parse_range_header("bytes=100-5000,0-1", 1000), Ok((100, 999))));
    assert!(matches!(parse_range_header("bytes=1000-", 1000), Err(AppError::InvalidRange)));
    assert!(matches!(parse_range_header("bytes=300-200", 1000), Err(AppError::InvalidRange)));
    assert!(matches!(parse_range_header("items=0-1", 1000), Err(AppError::InvalidRange)));
    assert!(matches!(parse_range_header("bytes=abc", 1000), Err(AppError::InvalidRange)));
}

#[test]
fn changes_are_added_updated_or_removed_files() {
    let mut r = ScanResult::new();
    r.unchanged_files.push(record(1, "/m/a.mp4", "video/mp4", 1));
    r.total_scanned = 1;
    assert!(!r.has_changes());
    assert_eq!(r.total_changes(), 0);
    r.removed_files.push(record(2, "/m/b.mp4", "video/mp4", 1));
    assert!(r.has_changes());
    assert_eq!(r.total_changes(), 1);
}

#[test]
fn paths_without_extension_are_served_as_binary() {
    assert_eq!(vuio::media::get_mime_type("/m/README"), "application/octet-stream");
    assert_eq!(vuio::media::get_mime_type("/m/.hidden"), "application/octet-stream");
    assert_eq!(vuio::media::get_mime_type("/m/Film.MKV"), "video/x-matroska");
    assert_eq!(
        vuio::media::get_mime_type("/m/README"),
        vuio::filesystem::get_mime_type_for_extension("")
    );
}

fn scanned_record(path: &str, name: &str, id: Option<i64>, size: u64, secs: u64) -> MediaFile {
    let t = Timestamp { secs, nanos: 0 };
    MediaFile {
        id,
        path: path.to_string(),
        filename: name.to_string(),
        size,
        modified: t,
        mime_type: "video/mp4".to_string(),
        duration_ms: None,
        title: None,
        artist: None,
        album: None,
        created_at: t,
        updated_at: t,
    }
}

#[test]
fn scan_plan_matches_records_by_path_components() {
    let scanner = vuio::media::MediaScanner::with_filesystem_manager(
        vuio::filesystem::create_platform_filesystem_manager(OsType::Linux),
    );
    let existing = vec![
        scanned_record("/m/a.mp4", "a.mp4", Some(1), 10, 100),
        scanned_record("/m/b.mp4", "b.mp4", Some(2), 5, 100),
        scanned_record("/m/c.mp4", "c.mp4", Some(3), 7, 100),
    ];
    let current = vec![
        scanned_record("/m//a.mp4", "a.mp4", None, 10, 105),
        scanned_record("/m/b.mp4", "b.mp4", None, 6, 200),
        scanned_record("/m/d.mp4", "d.mp4", None, 8, 300),
    ];
    let now = Timestamp { secs: 1000, nanos: 0 };
    let plan = scanner.plan_incremental_update(&existing, &current, now);

    assert_eq!(plan.unchanged.len(), 1);
    assert_eq!(plan.unchanged[0].path, "/m/a.mp4");
    assert_eq!(plan.unchanged[0].id, Some(1));

    assert_eq!(plan.updates.len(), 1);
    assert_eq!(plan.updates[0].path, "/m/b.mp4");
    assert_eq!(plan.updates[0].id, Some(2));
    assert_eq!(plan.updates[0].size, 6);
    assert_eq!(plan.updates[0].created_at, Timestamp { secs: 100, nanos: 0 });
    assert_eq!(plan.updates[0].updated_at, now);

    assert_eq!(plan.additions.len(), 1);
    assert_eq!(plan.additions[0].path, "/m/d.mp4");
    assert_eq!(plan.additions[0].id, None);

    assert_eq!(plan.removals.len(), 1);
    assert_eq!(plan.removals[0].path, "/m/c.mp4");
    assert_eq!(plan.total_scanned, 3);
}

#[test]
fn scan_plan_keeps_one_file_per_path() {
    let scanner = vuio::media::MediaScanner::with_filesystem_manager(
        vuio::filesystem::create_platform_filesystem_manager(OsType::Linux),
    );
    let existing: Vec<MediaFile> = Vec::new();
    let current = vec![
        scanned_record("/m/e.mp4", "e.mp4", None, 1, 100),
        scanned_record("/m/./e.mp4/", "e.mp4", None, 2, 100),
    ];
    let plan = scanner.plan_incremental_update(&existing, &current, Timestamp { secs: 5, nanos: 0 });
    assert_eq!(plan.additions.len(), 1);
    assert_eq!(plan.additions[0].path, "/m/e.mp4");
    assert_eq!(plan.additions[0].size, 2);
    assert!(plan.updates.is_empty() && plan.unchanged.is_empty() && plan.removals.is_empty());
    assert_eq!(plan.total_scanned, 1);
}

#[test]
fn cached_paths_compare_as_paths() {
    let mut cache = vec![record(1, "/m/a.mp4", "video/mp4", 1)];
    let found = vec![record(2, "/m//a.mp4", "video/mp4", 2), record(3, "/m/./b.mp4", "video/mp4", 3)];
    assert_eq!(add_uncached(&mut cache, &found), 1);
    assert_eq!(paths(&cache), vec!["/m/a.mp4".to_string(), "/m/./b.mp4".to_string()]);
    assert!(replace_cached(&mut cache, record(9, "/m/b.mp4/", "video/mp4", 500)));
    assert_eq!(cache[1].size, 500);
    assert_eq!(remove_cached_path(&mut cache, "/m/a.mp4/"), 1);
    assert_eq!(cache.len(), 1);
    assert_eq!(remove_cached_path(&mut cache, "m/b.mp4"), 0);
}

#[test]
fn queued_paths_and_sync_compare_as_paths() {
    let mut q = OperationQueue::new();
    q.record_event(FileSystemEvent::Created("/m/a.mp4".to_string()));
    q.record_event(FileSystemEvent::Modified("/m//a.mp4".to_string()));
    assert_eq!(q.len(), 1);
    let ops = q.drain();
    assert!(matches!(&ops[0], QueuedOperation::Update(p) if p == "/m//a.mp4"));

    let found = vec!["/m/a.mp4".to_string(), "/m/b.mp4".to_string()];
    let existing = vec!["/m/./a.mp4".to_string(), "/m/c.mp4".to_string()];
    let (add, remove) = initial_sync_plan(&found, &existing);
    assert_eq!(add, vec!["/m/b.mp4".to_string()]);
    assert_eq!(remove, vec!["/m/c.mp4".to_string()]);
}

#[test]
fn directories_compare_by_platform_rules() {
    assert!(vuio::library::same_dir("c:\\media\\films\\", "C:/media//films", true));
    assert!(!vuio::library::same_dir("c:\\media", "C:\\MEDIA", true));
    assert!(!vuio::library::same_dir("media\\films", "media/films", false));
    assert!(vuio::library::same_dir("/media/films/", "/media/./films", false));
}

#[test]
fn windows_scan_keeps_a_record_whose_path_differs_only_in_drive_case() {
    let scanner = vuio::media::MediaScanner::with_filesystem_manager(
        vuio::filesystem::create_platform_filesystem_manager(OsType::Windows),
    );
    let existing = vec![scanned_record("c:\\m\\a.mp4", "a.mp4", Some(4), 10, 100)];
    let current = vec![scanned_record("C:/m/a.mp4", "a.mp4", None, 10, 100)];
    let plan = scanner.plan_incremental_update(&existing, &current, Timestamp { secs: 9, nanos: 0 });
    assert_eq!(plan.unchanged.len(), 1);
    assert_eq!(plan.unchanged[0].path, "c:\\m\\a.mp4");
    assert!(plan.updates.is_empty() && plan.additions.is_empty() && plan.removals.is_empty());

    let slashed = vec![scanned_record("c:/m/a.mp4", "a.mp4", Some(5), 10, 100)];
    let plan = scanner.plan_incremental_update(&slashed, &current, Timestamp { secs: 9, nanos: 0 });
    assert_eq!(plan.unchanged.len(), 1);
    assert_eq!(plan.unchanged[0].path, "c:/m/a.mp4");

    let grown = vec![scanned_record("C:/m/a.mp4", "a.mp4", None, 11, 100)];
    let plan = scanner.plan_incremental_update(&slashed, &grown, Timestamp { secs: 9, nanos: 0 });
    assert_eq!(plan.updates.len(), 1);
    assert_eq!(plan.updates[0].path, "C:\\m\\a.mp4");
    assert_eq!(plan.updates[0].id, Some(5));
    assert_eq!(plan.updates[0].size, 11);
}
