use vuio::app_error::AppError;
use vuio::config::{AppConfig, MonitoredDirectoryConfig};
use vuio::platform::OsType;
use vuio::platform_config::{PlatformConfig, UserDirs};
use vuio::platform_error::{ConfigurationError, DatabaseError, PlatformError, WindowsError};

fn dirs() -> UserDirs {
    UserDirs {
        home: Some("/home/bob".to_string()),
        data: Some("/home/bob/.local/share".to_string()),
        data_local: Some("/home/bob/.local/share".to_string()),
        config: Some("/home/bob/.config".to_string()),
        cache: Some("/home/bob/.cache".to_string()),
        video: Some("/home/bob/Videos".to_string()),
        document: None,
        audio: None,
        picture: None,
    }
}

fn platform(os: OsType) -> PlatformConfig {
    let d = dirs();
    let existing = PlatformConfig::existence_candidates(os, &d);
    PlatformConfig::for_current_platform(os, &d, &existing)
}

fn default_config(p: &PlatformConfig) -> AppConfig {
    AppConfig::default_for_platform(p, &Vec::new(), Some("/srv/media".to_string()))
}

#[test]
fn test_default_config_creation() {
    let platform_config = platform(OsType::Linux);
    let config = default_config(&platform_config);

    assert_eq!(config.server.port, platform_config.preferred_ports.first().copied().unwrap_or(8080));
    assert_eq!(config.network.ssdp_port, 1900);
    assert!(config.media.scan_on_startup);
    assert!(config.media.watch_for_changes);
    assert!(!config.media.supported_extensions.is_empty());
}

#[test]
fn mod_test_exclude_patterns() {
    let dir_path = "/tmp/library".to_string();
    let platform_config = platform(OsType::Linux);
    let mut config = default_config(&platform_config);
    config.media.directories = vec![MonitoredDirectoryConfig {
        path: dir_path.clone(),
        recursive: true,
        extensions: None,
        exclude_patterns: Some(vec![
            ".*".to_string(),
            "Thumbs.db".to_string(),
            ".DS_Store".to_string(),
            "*.tmp".to_string(),
        ]),
    }];

    assert!(config.should_exclude_file("/tmp/library/.hidden", &dir_path));
    assert!(config.should_exclude_file("/tmp/library/Thumbs.db", &dir_path));
    assert!(config.should_exclude_file("/tmp/library/.DS_Store", &dir_path));
    assert!(config.should_exclude_file("/tmp/library/temp.tmp", &dir_path));
    assert!(!config.should_exclude_file("/tmp/library/movie.mp4", &dir_path));
}

#[test]
fn test_platform_defaults_application() {
    let platform_config = platform(OsType::Linux);
    let mut config = default_config(&platform_config);

    config.database.path = None;
    config.media.supported_extensions.clear();

    config.apply_platform_defaults(&platform_config);

    assert!(config.database.path.is_some());
    assert!(!config.media.supported_extensions.is_empty());
}

#[test]
fn test_platform_validation() {
    let platform_config = platform(OsType::Linux);
    let config = default_config(&platform_config);

    assert!(config.validate_directories(&platform_config).is_ok());
    assert!(config.validate_network_settings().is_ok());
}

#[test]
fn test_comprehensive_platform_integration() {
    for os in [OsType::Linux, OsType::MacOS, OsType::Windows] {
        let platform_config = platform(os);
        let config = default_config(&platform_config);

        assert!(platform_config.preferred_ports.contains(&config.server.port));
        assert_eq!(config.network.ssdp_port, 1900);
        assert!(!config.server.name.is_empty());
        assert!(!config.media.supported_extensions.is_empty());

        for dir_config in &config.media.directories {
            if let Some(patterns) = &dir_config.exclude_patterns {
                let platform_patterns = platform_config.get_default_exclude_patterns();
                let has_platform_patterns = platform_patterns.iter().any(|p| patterns.contains(p));
                assert!(has_platform_patterns, "No platform-specific exclude patterns found");
            }
        }

        assert!(config.validate_network_settings().is_ok());

        let recommendations = AppConfig::get_platform_recommendations(&platform_config, &Vec::new());
        assert!(!recommendations.is_empty());
        assert!(recommendations.iter().any(|r| r.contains("port")));

        let _issues = config.check_platform_best_practices(&platform_config);

        assert!(!AppConfig::get_platform_default_interface(&platform_config).is_empty());
        assert_eq!(AppConfig::get_platform_default_ssdp_port(&platform_config), 1900);
        assert!(AppConfig::get_platform_default_multicast_ttl(&platform_config) > 0);
        assert!(AppConfig::get_platform_default_announce_interval(&platform_config) > 0);
    }
}

#[test]
fn test_enhanced_platform_defaults_application() {
    let platform_config = platform(OsType::Linux);
    let mut config = default_config(&platform_config);

    config.media.supported_extensions.clear();
    config.server.interface = String::new();
    config.server.name = String::new();
    for dir_config in &mut config.media.directories {
        dir_config.exclude_patterns = None;
    }

    config.apply_platform_defaults(&platform_config);

    assert!(!config.media.supported_extensions.is_empty());
    assert!(!config.server.interface.is_empty());
    assert!(!config.server.name.is_empty());

    for dir_config in &config.media.directories {
        assert!(dir_config.exclude_patterns.is_some());
        let patterns = dir_config.exclude_patterns.as_ref().unwrap();
        assert!(!patterns.is_empty());

        let platform_patterns = platform_config.get_default_exclude_patterns();
        let has_platform_patterns = platform_patterns.iter().any(|p| patterns.contains(p));
        assert!(has_platform_patterns);
    }
}

#[test]
fn test_error_recoverability() {
    let recoverable_error = AppError::MediaScan("temporary failure".to_string());
    assert!(recoverable_error.is_recoverable());

    let non_recoverable_error = AppError::NotFound;
    assert!(!non_recoverable_error.is_recoverable());
}

#[test]
fn test_platform_error_integration() {
    let windows_error = PlatformError::Windows(WindowsError::PrivilegedPortAccess { port: 1900 });
    let app_error = AppError::Platform(windows_error);

    assert!(app_error.is_recoverable());
    assert!(!app_error.recovery_actions().is_empty());
}

#[test]
fn test_database_error_integration() {
    let db_error = DatabaseError::CorruptionDetected { location: "media_table".to_string() };
    let app_error = AppError::Database(db_error);

    assert!(app_error.is_recoverable());
    let message = app_error.user_friendly_message();
    assert!(message.contains("Database Error"));
    assert!(message.contains("Recovery"));
}

#[test]
fn test_configuration_error_integration() {
    let config_error = ConfigurationError::FileNotFound { path: "/etc/opendlna/config.toml".to_string() };
    let app_error = AppError::Configuration(config_error);

    assert!(app_error.is_recoverable());
    let actions = app_error.recovery_actions();
    assert!(actions.iter().any(|action| action.contains("default configuration")));
}

fn monitored(path: &str, patterns: Option<Vec<&str>>) -> MonitoredDirectoryConfig {
    MonitoredDirectoryConfig {
        path: path.to_string(),
        recursive: true,
        extensions: None,
        exclude_patterns: patterns.map(|v| v.into_iter().map(|p| p.to_string()).collect()),
    }
}

fn notes(lines: Vec<(vuio::app_error::LogLevel, String)>) -> Vec<String> {
    lines.into_iter().map(|(_, s)| s).collect()
}

#[test]
fn linux_validation_advice() {
    let p = platform(OsType::Linux);
    let mut c = default_config(&p);
    c.server.port = 80;
    c.network.ssdp_port = 900;
    c.media.directories = vec![
        monitored("/media/usb/films", Some(vec!["*.tmp"])),
        monitored("/mnt", None),
        monitored("/mediafiles", None),
        monitored("/home/bob/Videos", Some(vec![".Trash-1000"])),
    ];
    let lines = c.platform_validation_notes(&p);
    assert!(lines.iter().all(|(l, _)| *l != vuio::app_error::LogLevel::Error));
    assert_eq!(
        notes(lines),
        vec![
            "Server port 80 may require root privileges on Linux",
            "SSDP port 900 may require root privileges on Linux",
            "Mounted filesystem detected: /media/usb/films",
            "Mounted filesystem detected: /mnt",
        ]
    );
    c.media.directories = vec![monitored("/srv/media", Some(vec!["*.tmp"]))];
    c.server.port = 8080;
    c.network.ssdp_port = 1900;
    assert_eq!(
        notes(c.platform_validation_notes(&p)),
        vec!["Consider adding Linux-specific exclude patterns like 'lost+found' and '.Trash-*'"]
    );
    assert_eq!(
        c.preferred_port_warning(&p),
        if p.preferred_ports.contains(&8080) {
            None
        } else {
            Some(format!("Server port 8080 is not in platform preferred ports: {:?}", p.preferred_ports))
        }
    );
    c.server.port = 12345;
    assert_eq!(
        c.preferred_port_warning(&p),
        Some(format!("Server port 12345 is not in platform preferred ports: {:?}", p.preferred_ports))
    );
}

#[test]
fn windows_validation_advice() {
    let p = platform(OsType::Windows);
    let mut c = default_config(&p);
    c.server.port = 443;
    c.network.ssdp_port = 1900;
    c.database.path = Some("\\\\nas\\share\\media.db".to_string());
    c.media.directories = vec![monitored("\\\\nas\\videos", Some(vec!["desktop.ini"]))];
    assert_eq!(
        notes(c.platform_validation_notes(&p)),
        vec![
            "Server port 443 may require administrator privileges on Windows",
            "UNC path detected: \\\\nas\\videos",
            "Database path is on a network drive, this may cause performance issues: \\\\nas\\share\\media.db",
        ]
    );
    c.network.ssdp_port = 500;
    c.server.port = 8080;
    c.database.path = None;
    c.media.directories = vec![monitored("C:\\Videos", None)];
    assert_eq!(
        notes(c.platform_validation_notes(&p)),
        vec![
            "SSDP port 500 may require administrator privileges on Windows",
            "Consider adding Windows-specific exclude patterns like 'Thumbs.db' and 'desktop.ini'",
        ]
    );
}

#[test]
fn macos_validation_advice() {
    let p = platform(OsType::MacOS);
    let mut c = default_config(&p);
    c.server.port = 8080;
    c.network.ssdp_port = 1900;
    c.media.directories = vec![
        monitored("/Volumes/Backup/Movies", Some(vec![".DS_Store"])),
        monitored("/Volumes", None),
        monitored("/Users/bob/Movies", None),
    ];
    assert_eq!(
        notes(c.platform_validation_notes(&p)),
        vec!["Network volume detected: /Volumes/Backup/Movies", "Network volume detected: /Volumes"]
    );
}

#[test]
fn command_line_settings_replace_directories_port_and_name() {
    let p = platform(OsType::Linux);
    let mut c = default_config(&p);
    let before_ssdp = c.network.ssdp_port;
    let before_port = c.server.port;
    c.apply_command_line("/data/films".to_string(), None, "Living Room".to_string(), &p);
    assert_eq!(c.server.port, before_port);
    assert_eq!(c.server.name, "Living Room");
    assert_eq!(c.network.ssdp_port, before_ssdp);
    assert_eq!(c.media.directories.len(), 1);
    assert_eq!(c.media.directories[0].path, "/data/films");
    assert!(c.media.directories[0].recursive);
    assert_eq!(c.media.directories[0].extensions, None);
    assert_eq!(c.media.directories[0].exclude_patterns, Some(p.get_default_exclude_patterns()));
    c.apply_command_line("/data/music".to_string(), Some(9000), "Den".to_string(), &p);
    assert_eq!(c.server.port, 9000);
    assert_eq!(c.media.directories[0].path, "/data/music");
}

#[test]
fn platform_clutter_is_excluded_after_defaults() {
    let linux = platform(OsType::Linux);
    let mut c = default_config(&linux);
    c.media.directories = vec![monitored("/srv/media", Some(vec!["*.part"])), monitored("/data", None)];
    c.apply_platform_defaults(&linux);
    for dir in ["/srv/media", "/data"] {
        assert!(c.should_exclude_file(&format!("{}/lost+found", dir), dir));
        assert!(c.should_exclude_file(&format!("{}/.Trash-1000", dir), dir));
        assert!(!c.should_exclude_file(&format!("{}/film.mkv", dir), dir));
    }
    assert!(c.should_exclude_file("/srv/media/x.part", "/srv/media"));

    let mac = platform(OsType::MacOS);
    let mut m = default_config(&mac);
    m.media.directories = vec![monitored("/Users/bob/Movies", Some(vec![]))];
    m.apply_platform_defaults(&mac);
    assert!(m.should_exclude_file("/Users/bob/Movies/.DS_Store", "/Users/bob/Movies"));
    assert!(m.should_exclude_file("/Users/bob/Movies/.AppleDouble", "/Users/bob/Movies"));

    let win = platform(OsType::Windows);
    let mut w = default_config(&win);
    w.media.directories = vec![monitored("C:/Videos", None)];
    w.apply_platform_defaults(&win);
    assert!(w.should_exclude_file("C:/Videos/Thumbs.db", "C:/Videos"));
    assert!(w.should_exclude_file("C:/Videos/desktop.ini", "C:/Videos"));
    assert!(!w.should_exclude_file("C:/Videos/clip.mp4", "C:/Videos"));
}

#[test]
fn default_config_gets_a_random_v4_uuid() {
    let p = platform(OsType::Linux);
    let a = default_config(&p).server.uuid;
    let b = default_config(&p).server.uuid;
    assert_ne!(a, b);
    for u in [&a, &b] {
        let c: Vec<char> = u.chars().collect();
        assert_eq!(c.len(), 36);
        for (i, ch) in c.iter().enumerate() {
            if [8, 13, 18, 23].contains(&i) {
                assert_eq!(*ch, '-');
            } else {
                assert!(ch.is_ascii_hexdigit() && !ch.is_ascii_uppercase());
            }
        }
        assert_eq!(c[14], '4');
        assert!(['8', '9', 'a', 'b'].contains(&c[19]));
    }
}

#[test]
fn directory_entries_are_found_by_path_components() {
    let p = platform(OsType::Linux);
    let mut c = default_config(&p);
    c.media.supported_extensions = vec!["mp4".to_string()];
    c.media.directories = vec![
        MonitoredDirectoryConfig {
            path: "/m/".to_string(),
            recursive: true,
            extensions: Some(vec!["mkv".to_string()]),
            exclude_patterns: Some(vec!["*.tmp".to_string()]),
        },
        monitored("./local", Some(vec!["*.part"])),
    ];
    assert_eq!(c.get_extensions_for_directory("/m"), vec!["mkv".to_string()]);
    assert_eq!(c.get_extensions_for_directory("//m//"), vec!["mkv".to_string()]);
    assert_eq!(c.get_extensions_for_directory("/m/./"), vec!["mkv".to_string()]);
    assert_eq!(c.get_extensions_for_directory("/mm"), vec!["mp4".to_string()]);
    assert_eq!(c.get_exclude_patterns_for_directory("/m"), vec!["*.tmp".to_string()]);
    assert!(c.should_exclude_file("/m/x.tmp", "/m"));
    assert_eq!(c.get_exclude_patterns_for_directory("./local/"), vec!["*.part".to_string()]);
    assert!(c.get_exclude_patterns_for_directory("local").is_empty());
    assert!(c.get_exclude_patterns_for_directory("/elsewhere").is_empty());
}

#[test]
fn defaults_on_a_preferred_port_meet_best_practices() {
    for os in [OsType::Linux, OsType::MacOS, OsType::Windows] {
        let p = platform(os);
        let mut c = default_config(&p);
        c.media.supported_extensions = vec!["mp4".to_string()];
        c.media.directories = vec![monitored("/srv/media", Some(vec!["*.part"])), monitored("/data", None)];
        c.server.port = 9090;
        c.network.ssdp_port = 1900;
        assert!(!c.check_platform_best_practices(&p).is_empty());
        c.apply_platform_defaults(&p);
        assert!(c.check_platform_best_practices(&p).is_empty(), "{:?}", os);
    }
}
