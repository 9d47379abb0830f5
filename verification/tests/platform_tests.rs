use vuio::filesystem::{
    create_platform_filesystem_manager, get_mime_type_for_extension, is_supported_media_extension,
    BaseFileSystemManager, FileSystemManager,
};
use vuio::platform::{requires_elevation, InterfaceType, OsType, PlatformCapabilities};
use vuio::platform_config::{PlatformConfig, UserDirs};
use vuio::platform_error::{ConfigurationError, DatabaseError, PlatformError, WindowsError};
use vuio::windows_fs::WindowsFileSystemManager;
use vuio::windows_net::map_windows_if_type;

fn linux_dirs() -> UserDirs {
    UserDirs {
        home: Some("/home/alice".to_string()),
        data: Some("/home/alice/.local/share".to_string()),
        data_local: Some("/home/alice/.local/share".to_string()),
        config: Some("/home/alice/.config".to_string()),
        cache: Some("/home/alice/.cache".to_string()),
        video: Some("/home/alice/Videos".to_string()),
        document: Some("/home/alice/Documents".to_string()),
        audio: Some("/home/alice/Music".to_string()),
        picture: Some("/home/alice/Pictures".to_string()),
    }
}

fn linux_config() -> PlatformConfig {
    let dirs = linux_dirs();
    let existing = PlatformConfig::existence_candidates(OsType::Linux, &dirs);
    PlatformConfig::for_current_platform(OsType::Linux, &dirs, &existing)
}

fn file_name(p: &str) -> &str {
    p.rsplit('/').next().unwrap()
}

#[test]
fn test_platform_config_creation() {
    let config = linux_config();

    assert!(!config.config_dir.is_empty());
    assert!(!config.database_dir.is_empty());
    assert!(!config.preferred_ports.is_empty());
    assert!(!config.metadata.is_empty());

    assert_ne!(config.config_dir, config.database_dir);
    assert_ne!(config.config_dir, config.cache_dir);

    assert_eq!(config.os_type, OsType::Linux);
}

#[test]
fn test_default_media_directories() {
    let dirs = linux_dirs();
    let config = linux_config();
    let existing = PlatformConfig::existence_candidates(OsType::Linux, &dirs);
    let directories = config.get_default_media_directories(&dirs, &existing);

    assert!(!directories.is_empty());
    assert!(directories.contains(&config.default_media_dir));
}

#[test]
fn test_file_paths() {
    let config = linux_config();

    let config_file = config.get_config_file_path();
    assert_eq!(file_name(&config_file), "config.toml");

    let db_file = config.get_database_path();
    assert_eq!(file_name(&db_file), "media.db");

    let log_file = config.get_log_file_path();
    assert_eq!(file_name(&log_file), "vuio.log");
}

#[test]
fn test_platform_metadata() {
    let config = linux_config();

    assert!(config.get_metadata("platform").is_some());
    assert!(config.get_metadata("case_sensitive").is_some());
    assert!(config.get_metadata("path_separator").is_some());

    let _is_case_sensitive = config.is_case_sensitive();
    let path_sep = config.get_path_separator();
    assert!(!path_sep.is_empty());
}

#[test]
fn config_test_exclude_patterns() {
    let config = linux_config();
    let patterns = config.get_default_exclude_patterns();

    assert!(!patterns.is_empty());
    assert!(patterns.contains(&".*".to_string()));
}

#[test]
fn test_media_extensions() {
    let config = linux_config();
    let extensions = config.get_default_media_extensions();

    assert!(!extensions.is_empty());
    assert!(extensions.contains(&"mp4".to_string()));
    assert!(extensions.contains(&"mp3".to_string()));
    assert!(extensions.contains(&"jpg".to_string()));
}

#[test]
fn config_test_path_validation() {
    let config = linux_config();
    assert!(config.validate_path("/tmp").is_ok());
    let windows = PlatformConfig::for_current_platform(OsType::Windows, &linux_dirs(), &Vec::new());
    assert!(windows.validate_path("C:\\This\\Is\\A\\Valid\\Format").is_ok());
}

#[test]
fn test_windows_error_recovery() {
    let error = WindowsError::PrivilegedPortAccess { port: 1900 };
    assert!(error.is_recoverable());
    assert!(!error.recovery_actions().is_empty());
}

#[test]
fn test_database_error_recovery() {
    let error = DatabaseError::CorruptionDetected { location: "table_media".to_string() };
    assert!(error.is_recoverable());
    assert_eq!(error.recovery_strategy(), "Database will be automatically rebuilt from media scan");
}

#[test]
fn test_platform_error_user_message() {
    let error = PlatformError::Windows(WindowsError::FirewallBlocked);
    let message = error.user_message();
    assert!(message.contains("Windows Error"));
    assert!(message.contains("Troubleshooting"));
}

#[test]
fn test_configuration_error_recovery() {
    let error = ConfigurationError::FileNotFound { path: "/etc/opendlna/config.toml".to_string() };
    assert!(error.is_recoverable());
    assert!(!error.recovery_actions().is_empty());
}

#[test]
fn test_mime_type_detection() {
    assert_eq!(get_mime_type_for_extension("mp4"), "video/mp4");
    assert_eq!(get_mime_type_for_extension("MP4"), "video/mp4");
    assert_eq!(get_mime_type_for_extension("mp3"), "audio/mpeg");
    assert_eq!(get_mime_type_for_extension("unknown"), "application/octet-stream");
}

#[test]
fn test_supported_extension_check() {
    assert!(is_supported_media_extension("mp4"));
    assert!(is_supported_media_extension("MP4"));
    assert!(is_supported_media_extension("mp3"));
    assert!(!is_supported_media_extension("txt"));
    assert!(!is_supported_media_extension("unknown"));
}

#[test]
fn mod_test_path_validation() {
    let manager = BaseFileSystemManager::new(true);

    assert!(manager.validate_path_common("/valid/path").is_ok());
    assert!(manager.validate_path_common("relative/path").is_ok());

    assert!(manager.validate_path_common("path/with/\0/null").is_err());
    assert!(manager.validate_path_common("path/../traversal").is_err());
}

#[test]
fn test_case_sensitivity() {
    let case_sensitive = BaseFileSystemManager::new(true);
    let case_insensitive = BaseFileSystemManager::new(false);

    let path1 = "/Test/Path";
    let path2 = "/test/path";

    assert!(!case_sensitive.paths_equal(path1, path2));
    assert!(case_insensitive.paths_equal(path1, path2));
}

#[test]
fn mod_test_extension_matching() {
    let case_sensitive = BaseFileSystemManager::new(true);
    let case_insensitive = BaseFileSystemManager::new(false);

    let path = "test.MP4";
    let extensions = vec!["mp4".to_string(), "avi".to_string()];

    assert!(!case_sensitive.matches_extension(path, &extensions));
    assert!(case_insensitive.matches_extension(path, &extensions));
}

#[test]
fn test_unc_path_detection() {
    let manager = WindowsFileSystemManager::new();

    assert!(manager.is_unc_path(r"\\server\share\path"));
    assert!(manager.is_unc_path(r"\\192.168.1.100\media"));
    assert!(!manager.is_unc_path(r"C:\local\path"));
    assert!(!manager.is_unc_path(r"relative\path"));
}

#[test]
fn test_drive_letter_detection() {
    let manager = WindowsFileSystemManager::new();

    assert!(manager.has_drive_letter(r"C:\path"));
    assert!(manager.has_drive_letter(r"D:\another\path"));
    assert!(!manager.has_drive_letter(r"\\server\share"));
    assert!(!manager.has_drive_letter(r"relative\path"));
}

#[test]
fn test_path_normalization() {
    let manager = WindowsFileSystemManager::new();

    let normalized = manager.normalize_windows_path("C:/path/to/file");
    assert_eq!(normalized, r"C:\path\to\file");

    let normalized = manager.normalize_windows_path(r"c:\path\to\file");
    assert_eq!(normalized, r"C:\path\to\file");

    let unc_path = r"\\server\share\path";
    let normalized = manager.normalize_windows_path(unc_path);
    assert_eq!(normalized, unc_path);
}

#[test]
fn test_reserved_name_validation() {
    let manager = WindowsFileSystemManager::new();

    assert!(manager.validate_windows_path(r"C:\CON").is_err());
    assert!(manager.validate_windows_path(r"C:\PRN.txt").is_err());
    assert!(manager.validate_windows_path(r"C:\COM1").is_err());
    assert!(manager.validate_windows_path(r"C:\LPT1.dat").is_err());

    assert!(manager.validate_windows_path(r"C:\CONSOLE").is_ok());
    assert!(manager.validate_windows_path(r"C:\PRINTER.txt").is_ok());
}

#[test]
fn test_invalid_character_validation() {
    let manager = WindowsFileSystemManager::new();

    assert!(manager.validate_windows_path(r"C:\path\file<name").is_err());
    assert!(manager.validate_windows_path(r"C:\path\file>name").is_err());
    assert!(manager.validate_windows_path(r"C:\path\file|name").is_err());
    assert!(manager.validate_windows_path(r"C:\path\file?name").is_err());
    assert!(manager.validate_windows_path(r"C:\path\file*name").is_err());

    assert!(manager.validate_windows_path(r"C:\path\filename").is_ok());
    assert!(manager.validate_windows_path(r"C:\path\file-name_123").is_ok());
}

#[test]
fn test_case_insensitive_comparison() {
    let manager = WindowsFileSystemManager::new();

    let path1 = r"C:\Path\To\File.txt";
    let path2 = r"c:\path\to\file.TXT";

    assert!(manager.paths_equal(path1, path2));
}

#[test]
fn windows_test_extension_matching() {
    let manager = WindowsFileSystemManager::new();

    let path = r"C:\path\file.MP4";
    let extensions = vec!["mp4".to_string(), "avi".to_string()];

    assert!(manager.matches_extension(path, &extensions));
}

#[test]
fn test_hidden_file_detection() {
    let manager = WindowsFileSystemManager::new();

    assert!(manager.is_hidden_windows(r"C:\path\Thumbs.db"));
    assert!(manager.is_hidden_windows(r"C:\path\desktop.ini"));
    assert!(manager.is_hidden_windows(r"C:\path\.hidden"));
    assert!(!manager.is_hidden_windows(r"C:\path\normal.txt"));
}

#[test]
fn linux_test_elevation_check() {
    let requires_root = requires_elevation(80);
    assert!(requires_root);

    let no_root_needed = requires_elevation(8080);
    assert!(!no_root_needed);
}

#[test]
fn windows_test_elevation_check() {
    let requires_admin = requires_elevation(80);
    assert!(requires_admin);

    let no_admin_needed = requires_elevation(8080);
    assert!(!no_admin_needed);
}

#[test]
fn test_os_type_detection() {
    for os_type in [OsType::Windows, OsType::MacOS, OsType::Linux] {
        match os_type {
            OsType::Windows | OsType::MacOS | OsType::Linux => {
                assert!(!os_type.display_name().is_empty());
            }
        }
    }
}

#[test]
fn test_platform_capabilities() {
    for os in [OsType::Windows, OsType::MacOS, OsType::Linux] {
        let capabilities = PlatformCapabilities::for_os(os);
        assert!(capabilities.supports_multicast);
        assert!(capabilities.has_firewall);
    }
}

#[test]
fn test_interface_type_mapping() {
    assert!(map_windows_if_type(6) == InterfaceType::Ethernet);
    assert!(map_windows_if_type(71) == InterfaceType::WiFi);
    assert!(map_windows_if_type(24) == InterfaceType::Loopback);
    assert!(map_windows_if_type(131) == InterfaceType::VPN);

    match map_windows_if_type(999) {
        InterfaceType::Other(desc) => assert_eq!(desc, "ifType 999"),
        _ => panic!("Expected Other type"),
    }
}

#[test]
fn forward_slash_drive_paths_get_an_upper_case_letter() {
    let manager = WindowsFileSystemManager::new();
    assert_eq!(manager.normalize_windows_path("c:/media/x.mp4"), r"C:\media\x.mp4");
    assert_eq!(manager.normalize_windows_path("d:"), "d:");
    assert_eq!(manager.normalize_windows_path("media/c:/x"), r"media\c:\x");
    assert!(manager.paths_equal("c:/Media/X.mp4", r"C:\media\x.MP4"));
}

#[test]
fn case_sensitive_paths_compare_part_by_part() {
    let manager = BaseFileSystemManager::new(true);
    assert!(manager.paths_equal("/a/b/", "/a/b"));
    assert!(manager.paths_equal("/a//b", "/a/b"));
    assert!(manager.paths_equal("/a/./b", "/a/b"));
    assert!(manager.paths_equal("./a", "./a/"));
    assert!(!manager.paths_equal("./a", "a"));
    assert!(!manager.paths_equal("/a/b", "a/b"));
    assert!(!manager.paths_equal("/a/B", "/a/b"));
    assert!(!manager.paths_equal("/a/../b", "/b"));

    let case_insensitive = BaseFileSystemManager::new(false);
    assert!(case_insensitive.paths_equal("/A/b", "/a/B"));
    assert!(!case_insensitive.paths_equal("/a/b/", "/a/b"));

    let linux = create_platform_filesystem_manager(OsType::Linux);
    assert!(FileSystemManager::paths_equal(&linux, "/media/videos/", "/media//videos"));
    assert!(!FileSystemManager::paths_equal(&linux, "/media/Videos", "/media/videos"));
}

#[test]
fn media_directories_are_told_apart_as_paths() {
    let mut dirs = linux_dirs();
    dirs.audio = Some("/media/".to_string());
    let existing = vec!["/home/alice/Videos".to_string(), "/media".to_string(), "/mnt".to_string()];
    let config = PlatformConfig::for_current_platform(OsType::Linux, &dirs, &existing);
    assert_eq!(config.default_media_dir, "/home/alice/Videos");
    let directories = config.get_default_media_directories(&dirs, &existing);
    assert_eq!(
        directories,
        vec![
            "/home/alice/Videos".to_string(),
            "/media/".to_string(),
            "/home/alice/Pictures".to_string(),
            "/mnt".to_string(),
        ]
    );
}
