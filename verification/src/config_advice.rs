//! The advice logged when a configuration is validated for its platform:
//! ports that may need privileges, directories on network or removable
//! storage, a database on a network drive, and missing platform exclude
//! patterns. None of it stops the configuration from being used.
use vstd::prelude::*;

use crate::app_error::{log_views, LogLevel};
use crate::config::{AppConfig, DirectoryView};
use crate::debug_fmt::{debug_number_list, debug_numbers};
use crate::library::{is_within, within};
use crate::linux_net::begins_with;
use crate::path::join;
use crate::platform::OsType;
use crate::platform_config::PlatformConfig;
use crate::text::{around_decimal, chars_of, decimal, eq_str, owned, push_str, starts_with};

verus! {

/// The warning when the server port is not one the platform prefers.
pub open spec fn preferred_port_note(c: AppConfig, p: PlatformConfig) -> Option<Seq<char>> {
    if p.preferred_ports@.contains(c.server.port) {
        None
    } else {
        Some(
            "Server port "@ + decimal(c.server.port as nat) + " is not in platform preferred ports: "@
                + debug_numbers(p.preferred_ports@),
        )
    }
}

/// Who may bind privileged ports on a platform.
pub open spec fn privilege_phrase(os: OsType) -> Seq<char> {
    match os {
        OsType::Windows => "administrator privileges on Windows"@,
        OsType::MacOS => "administrator privileges on macOS"@,
        OsType::Linux => "root privileges on Linux"@,
    }
}

/// The warnings on ports that may need privileges: the SSDP port first on
/// Windows, the server port first elsewhere. The standard SSDP port is not
/// warned of.
pub open spec fn port_lines(os: OsType, port: u16, ssdp_port: u16) -> Seq<(LogLevel, Seq<char>)> {
    let server: Seq<(LogLevel, Seq<char>)> = if port < 1024 {
        seq![(LogLevel::Warn, "Server port "@ + decimal(port as nat) + " may require "@ + privilege_phrase(os))]
    } else {
        Seq::empty()
    };
    let ssdp: Seq<(LogLevel, Seq<char>)> = if ssdp_port < 1024 && ssdp_port != 1900 {
        seq![(LogLevel::Warn, "SSDP port "@ + decimal(ssdp_port as nat) + " may require "@ + privilege_phrase(os))]
    } else {
        Seq::empty()
    };
    match os {
        OsType::Windows => ssdp + server,
        _ => server + ssdp,
    }
}

/// The note on a directory kept on network or removable storage: a UNC
/// path on Windows, a volume under `/Volumes` on macOS, a mount under
/// `/media` or `/mnt` on Linux.
pub open spec fn location_note(os: OsType, path: Seq<char>) -> Option<Seq<char>> {
    match os {
        OsType::Windows => if starts_with(path, "\\\\"@) {
            Some("UNC path detected: "@ + path)
        } else {
            None
        },
        OsType::MacOS => if within(path, "/Volumes/"@) {
            Some("Network volume detected: "@ + path)
        } else {
            None
        },
        OsType::Linux => if within(path, "/media/"@) || within(path, "/mnt/"@) {
            Some("Mounted filesystem detected: "@ + path)
        } else {
            None
        },
    }
}

/// The location notes on the directories, in order.
pub open spec fn location_lines(os: OsType, ds: Seq<DirectoryView>) -> Seq<(LogLevel, Seq<char>)>
    decreases ds.len(),
{
    if ds.len() == 0 {
        Seq::empty()
    } else {
        location_lines(os, ds.drop_last()) + match location_note(os, ds.last().path) {
            Some(t) => seq![(LogLevel::Info, t)],
            None => Seq::empty(),
        }
    }
}

/// An exclude pattern typical of the platform's own clutter.
pub open spec fn platform_pattern(os: OsType, p: Seq<char>) -> bool {
    match os {
        OsType::Windows => p == "Thumbs.db"@ || p == "desktop.ini"@,
        OsType::MacOS => p == ".DS_Store"@ || p == ".AppleDouble"@,
        OsType::Linux => p == "lost+found"@ || starts_with(p, ".Trash-"@),
    }
}

/// The exclude patterns a directory sets (none when it sets none).
pub open spec fn patterns_of(d: DirectoryView) -> Seq<Seq<char>> {
    match d.exclude_patterns {
        Some(ps) => ps,
        None => Seq::empty(),
    }
}

/// Some directory excludes a pattern typical of the platform.
pub open spec fn has_platform_pattern(os: OsType, ds: Seq<DirectoryView>) -> bool {
    exists|i: int, j: int|
        0 <= i < ds.len() && 0 <= j < patterns_of(ds[i]).len() && platform_pattern(os, #[trigger] patterns_of(ds[i])[j])
}

/// The advice to exclude the platform's typical clutter.
pub open spec fn pattern_advice(os: OsType) -> Seq<char> {
    match os {
        OsType::Windows => "Consider adding Windows-specific exclude patterns like 'Thumbs.db' and 'desktop.ini'"@,
        OsType::MacOS => "Consider adding macOS-specific exclude patterns like '.DS_Store' and '.AppleDouble'"@,
        OsType::Linux => "Consider adding Linux-specific exclude patterns like 'lost+found' and '.Trash-*'"@,
    }
}

/// The database path in use: the configured one, else the platform's.
pub open spec fn database_path_spec(c: AppConfig, p: PlatformConfig) -> Seq<char> {
    match c.database.path {
        Some(d) => d@,
        None => join(p.database_dir@, "media.db"@, p.os_type == OsType::Windows),
    }
}

/// Everything the platform part of validation logs, in order.
pub open spec fn platform_validation_lines(c: AppConfig, p: PlatformConfig) -> Seq<(LogLevel, Seq<char>)> {
    let os = p.os_type;
    let db = database_path_spec(c, p);
    port_lines(os, c.server.port, c.network.ssdp_port) + location_lines(os, c.dirs()) + (if os == OsType::Windows
        && starts_with(db, "\\\\"@) {
        seq![(LogLevel::Warn, "Database path is on a network drive, this may cause performance issues: "@ + db)]
    } else {
        Seq::empty()
    }) + if has_platform_pattern(os, c.dirs()) {
        Seq::empty()
    } else {
        seq![(LogLevel::Info, pattern_advice(os))]
    }
}

fn port_warning(what: &str, port: u16, os: OsType) -> (res: (LogLevel, String))
    ensures
        res.0 == LogLevel::Warn,
        res.1@ == what@ + decimal(port as nat) + " may require "@ + privilege_phrase(os),
{
    let mut s = around_decimal(what, port as u64, " may require ");
    match os {
        OsType::Windows => push_str(&mut s, "administrator privileges on Windows"),
        OsType::MacOS => push_str(&mut s, "administrator privileges on macOS"),
        OsType::Linux => push_str(&mut s, "root privileges on Linux"),
    }
    (LogLevel::Warn, s)
}

fn location_notice(os: OsType, path: &String) -> (res: Option<String>)
    ensures
        match location_note(os, path@) {
            Some(t) => res matches Some(r) && r@ == t,
            None => res is None,
        },
{
    let hit = match os {
        OsType::Windows => begins_with(chars_of(path.as_str()).as_slice(), "\\\\"),
        OsType::MacOS => is_within(path.as_str(), "/Volumes/"),
        OsType::Linux => is_within(path.as_str(), "/media/") || is_within(path.as_str(), "/mnt/"),
    };
    if !hit {
        return None;
    }
    let mut s = match os {
        OsType::Windows => owned("UNC path detected: "),
        OsType::MacOS => owned("Network volume detected: "),
        OsType::Linux => owned("Mounted filesystem detected: "),
    };
    push_str(&mut s, path.as_str());
    Some(s)
}

fn is_platform_pattern(os: OsType, p: &String) -> (res: bool)
    ensures
        res == platform_pattern(os, p@),
{
    let c = chars_of(p.as_str());
    match os {
        OsType::Windows => eq_str(c.as_slice(), "Thumbs.db") || eq_str(c.as_slice(), "desktop.ini"),
        OsType::MacOS => eq_str(c.as_slice(), ".DS_Store") || eq_str(c.as_slice(), ".AppleDouble"),
        OsType::Linux => eq_str(c.as_slice(), "lost+found") || begins_with(c.as_slice(), ".Trash-"),
    }
}

impl AppConfig {
    /// The warning logged when the server port is not one the platform
    /// prefers.
    pub fn preferred_port_warning(&self, platform_config: &PlatformConfig) -> (res: Option<String>)
        ensures
            match preferred_port_note(*self, *platform_config) {
                Some(t) => res matches Some(r) && r@ == t,
                None => res is None,
            },
    {
        let ports = &platform_config.preferred_ports;
        let mut found = false;
        let mut k: usize = 0;
        while k < ports.len()
            invariant
                k <= ports.len(),
                found == exists|j: int| 0 <= j < k && ports@[j] == self.server.port,
            decreases ports.len() - k,
        {
            if ports[k] == self.server.port {
                found = true;
            }
            k = k + 1;
        }
        assert(found == ports@.contains(self.server.port));
        if found {
            None
        } else {
            let mut s = around_decimal("Server port ", self.server.port as u64, " is not in platform preferred ports: ");
            let d = debug_number_list(ports);
            push_str(&mut s, d.as_str());
            Some(s)
        }
    }

    /// The advice logged when the configuration is validated for its
    /// platform: privileged ports, directories on network or removable
    /// storage, a database on a network drive, and missing platform
    /// exclude patterns.
    pub fn platform_validation_notes(&self, platform_config: &PlatformConfig) -> (res: Vec<(LogLevel, String)>)
        ensures
            log_views(res@) == platform_validation_lines(*self, *platform_config),
    {
        let os = platform_config.os_type;
        let port = self.server.port;
        let ssdp = self.network.ssdp_port;
        let mut v: Vec<(LogLevel, String)> = Vec::new();
        let ssdp_flagged = ssdp < 1024 && ssdp != 1900;
        match os {
            OsType::Windows => {
                if ssdp_flagged {
                    v.push(port_warning("SSDP port ", ssdp, os));
                }
                if port < 1024 {
                    v.push(port_warning("Server port ", port, os));
                }
            },
            _ => {
                if port < 1024 {
                    v.push(port_warning("Server port ", port, os));
                }
                if ssdp_flagged {
                    v.push(port_warning("SSDP port ", ssdp, os));
                }
            },
        }
        proof {
            assert(log_views(v@) =~= port_lines(os, port, ssdp));
        }
        let ghost ports_part = log_views(v@);
        let ghost ds = self.dirs();
        let dirs = &self.media.directories;
        let mut i: usize = 0;
        while i < dirs.len()
            invariant
                i <= dirs.len(),
                dirs@ == self.media.directories@,
                ds == self.dirs(),
                log_views(v@) == ports_part + location_lines(os, ds.subrange(0, i as int)),
            decreases dirs.len() - i,
        {
            proof {
                assert(ds.subrange(0, i + 1).drop_last() =~= ds.subrange(0, i as int));
                assert(ds[i as int] == dirs@[i as int]@);
            }
            let ghost prev = log_views(v@);
            match location_notice(os, &dirs[i].path) {
                Some(t) => {
                    v.push((LogLevel::Info, t));
                },
                None => {},
            }
            proof {
                assert(log_views(v@) =~= prev + match location_note(os, ds[i as int].path) {
                    Some(t) => seq![(LogLevel::Info, t)],
                    None => Seq::<(LogLevel, Seq<char>)>::empty(),
                });
            }
            i = i + 1;
        }
        proof {
            assert(ds.subrange(0, ds.len() as int) =~= ds);
        }
        let ghost located = log_views(v@);
        if os == OsType::Windows {
            let db = self.get_database_path(platform_config);
            if begins_with(chars_of(db.as_str()).as_slice(), "\\\\") {
                let mut s = owned("Database path is on a network drive, this may cause performance issues: ");
                push_str(&mut s, db.as_str());
                v.push((LogLevel::Warn, s));
            }
        }
        proof {
            assert(log_views(v@) =~= located + if os == OsType::Windows && starts_with(
                database_path_spec(*self, *platform_config),
                "\\\\"@,
            ) {
                seq![
                    (LogLevel::Warn, "Database path is on a network drive, this may cause performance issues: "@
                        + database_path_spec(*self, *platform_config)),
                ]
            } else {
                Seq::empty()
            });
        }
        let ghost with_db = log_views(v@);
        let mut found = false;
        let mut a: usize = 0;
        while a < dirs.len() && !found
            invariant
                a <= dirs.len(),
                dirs@ == self.media.directories@,
                ds == self.dirs(),
                found ==> has_platform_pattern(os, ds),
                !found ==> forall|i: int, j: int|
                    0 <= i < a && 0 <= j < patterns_of(ds[i]).len() ==> !platform_pattern(
                        os,
                        #[trigger] patterns_of(ds[i])[j],
                    ),
            decreases dirs.len() - a,
        {
            proof {
                assert(ds[a as int] == dirs@[a as int]@);
            }
            match &dirs[a].exclude_patterns {
                Some(ps) => {
                    let mut b: usize = 0;
                    while b < ps.len() && !found
                        invariant
                            b <= ps.len(),
                            a < dirs.len(),
                            ds == self.dirs(),
                            dirs@ == self.media.directories@,
                            ds[a as int].exclude_patterns == Some(crate::text::texts(ps@)),
                            found ==> has_platform_pattern(os, ds),
                            !found ==> forall|j: int| 0 <= j < b ==> !platform_pattern(os, #[trigger] ps@[j]@),
                        decreases ps.len() - b,
                    {
                        if is_platform_pattern(os, &ps[b]) {
                            proof {
                                let t = crate::text::texts(ps@);
                                assert(t[b as int] == ps@[b as int]@);
                                assert(patterns_of(ds[a as int]) == t);
                                assert(platform_pattern(os, patterns_of(ds[a as int])[b as int]));
                            }
                            found = true;
                        }
                        b = b + 1;
                    }
                    proof {
                        if !found {
                            let t = crate::text::texts(ps@);
                            assert forall|j: int| 0 <= j < t.len() implies !platform_pattern(os, #[trigger] t[j]) by {
                                assert(t[j] == ps@[j]@);
                            }
                        }
                    }
                },
                None => {
                    proof {
                        assert(patterns_of(ds[a as int]).len() == 0);
                    }
                },
            }
            a = a + 1;
        }
        if !found {
            let advice = match os {
                OsType::Windows => owned(
                    "Consider adding Windows-specific exclude patterns like 'Thumbs.db' and 'desktop.ini'",
                ),
                OsType::MacOS => owned(
                    "Consider adding macOS-specific exclude patterns like '.DS_Store' and '.AppleDouble'",
                ),
                OsType::Linux => owned("Consider adding Linux-specific exclude patterns like 'lost+found' and '.Trash-*'"),
            };
            v.push((LogLevel::Info, advice));
        }
        proof {
            if !found {
                assert(!has_platform_pattern(os, ds));
            }
            assert(log_views(v@) =~= with_db + if has_platform_pattern(os, ds) {
                Seq::<(LogLevel, Seq<char>)>::empty()
            } else {
                seq![(LogLevel::Info, pattern_advice(os))]
            });
        }
        v
    }
}

} // verus!
