//! The status reports written to the log: a platform error with what can
//! be done about it, the network, the file system watcher, the
//! configuration, periodic updates and shutdown. Each is a list of lines at
//! their levels; gathering the facts and writing the lines are left to the
//! caller.
use vstd::prelude::*;

use crate::app_error::{log_views, LogLevel};
use crate::diagnostic_report::{interface_type_text, render_interface_type};
use crate::platform::{
    any_suitable, interface_views, is_primary_at, primary_interface_index, InterfaceView, NetworkInterface,
    PlatformInfo,
};
use crate::platform_error::PlatformError;
use crate::security::{flag_text, labelled_flag, lemma_primary_unique};
use crate::text::{decimal, lowercase_of, owned, push_decimal, push_str, texts, to_lowercase};

verus! {

/// What is logged of a platform error met in `context`: the error, then
/// either the ways to recover or that none is known, then the message
/// meant for the user.
pub open spec fn platform_error_lines(e: PlatformError, context: Seq<char>) -> Seq<(LogLevel, Seq<char>)> {
    seq![(LogLevel::Error, "Platform error in "@ + context + ": "@ + e.text())] + (if e.recoverable() {
        seq![(LogLevel::Info, "Error is recoverable. Suggested actions:"@)] + e.actions().map_values(
            |a: Seq<char>| (LogLevel::Info, "  - "@ + a),
        )
    } else {
        seq![(LogLevel::Error, "Error is not recoverable. Manual intervention may be required."@)]
    }) + seq![(LogLevel::Debug, "User-friendly error message: "@ + e.user_text())]
}

/// The lines logged for a platform error met in `context`.
pub fn log_platform_error(error: &PlatformError, context: &str) -> (res: Vec<(LogLevel, String)>)
    ensures
        log_views(res@) == platform_error_lines(*error, context@),
{
    let mut v: Vec<(LogLevel, String)> = Vec::new();
    let mut head = owned("Platform error in ");
    push_str(&mut head, context);
    push_str(&mut head, ": ");
    let m = error.message();
    push_str(&mut head, m.as_str());
    v.push((LogLevel::Error, head));
    let ghost first = log_views(v@);
    if error.is_recoverable() {
        v.push((LogLevel::Info, owned("Error is recoverable. Suggested actions:")));
        let actions = error.recovery_actions();
        let ghost with_intro = log_views(v@);
        let ghost acts = texts(actions@);
        let mut k: usize = 0;
        while k < actions.len()
            invariant
                k <= actions.len(),
                acts == texts(actions@),
                log_views(v@) == with_intro + acts.subrange(0, k as int).map_values(
                    |a: Seq<char>| (LogLevel::Info, "  - "@ + a),
                ),
            decreases actions.len() - k,
        {
            let mut t = owned("  - ");
            push_str(&mut t, actions[k].as_str());
            let ghost prev = log_views(v@);
            v.push((LogLevel::Info, t));
            proof {
                assert(acts[k as int] == actions@[k as int]@);
                assert(acts.subrange(0, k + 1).map_values(|a: Seq<char>| (LogLevel::Info, "  - "@ + a))
                    =~= acts.subrange(0, k as int).map_values(|a: Seq<char>| (LogLevel::Info, "  - "@ + a)).push(
                    (LogLevel::Info, "  - "@ + acts[k as int]),
                ));
                assert(log_views(v@) =~= prev.push((LogLevel::Info, "  - "@ + acts[k as int])));
            }
            k = k + 1;
        }
        proof {
            assert(acts.subrange(0, acts.len() as int) =~= acts);
            assert(log_views(v@) =~= first + (seq![(LogLevel::Info, "Error is recoverable. Suggested actions:"@)]
                + error.actions().map_values(|a: Seq<char>| (LogLevel::Info, "  - "@ + a))));
        }
    } else {
        v.push((LogLevel::Error, owned("Error is not recoverable. Manual intervention may be required.")));
    }
    let mut u = owned("User-friendly error message: ");
    let um = error.user_message();
    push_str(&mut u, um.as_str());
    let ghost before_user = log_views(v@);
    v.push((LogLevel::Debug, u));
    proof {
        assert(log_views(v@) =~= before_user.push((LogLevel::Debug, "User-friendly error message: "@ + error.user_text())));
    }
    v
}

/// The network status line for one interface: its state, its type in
/// lower case, and whether it does multicast and is a loopback.
pub open spec fn status_line(i: InterfaceView) -> (LogLevel, Seq<char>) {
    (
        LogLevel::Info,
        "  - "@ + i.name + " ("@ + i.ip_address.text() + "): "@ + (if i.is_up {
            "UP"@
        } else {
            "DOWN"@
        }) + " ["@ + lowercase_of(interface_type_text(i.kind)) + "] ["@ + (if i.supports_multicast {
            "multicast"@
        } else {
            "no-multicast"@
        }) + "] ["@ + (if i.is_loopback {
            "loopback"@
        } else {
            "physical"@
        }) + "]"@,
    )
}

/// The line on the interface chosen for DLNA traffic.
pub open spec fn primary_status_line(s: Seq<InterfaceView>) -> (LogLevel, Seq<char>) {
    if any_suitable(s) {
        let p = s[choose|i: int| is_primary_at(s, i)];
        (LogLevel::Info, "Primary interface selected: "@ + p.name + " ("@ + p.ip_address.text() + ")"@)
    } else {
        (LogLevel::Warn, "No suitable primary interface found for DLNA operations"@)
    }
}

/// What the network status report logs of a platform.
pub open spec fn network_status_lines(info: PlatformInfo) -> Seq<(LogLevel, Seq<char>)> {
    let s = interface_views(info.network_interfaces@);
    let caps = info.capabilities;
    seq![
        (LogLevel::Info, "=== Network Status ==="@),
        (LogLevel::Info, "Detected "@ + decimal(s.len()) + " network interface(s)"@),
    ] + s.map_values(|i: InterfaceView| status_line(i)) + seq![
        primary_status_line(s),
        (LogLevel::Info, "Network capabilities:"@),
        (LogLevel::Info, "  - Privileged port binding: "@ + flag_text(caps.can_bind_privileged_ports)),
        (LogLevel::Info, "  - Multicast support: "@ + flag_text(caps.supports_multicast)),
        (LogLevel::Info, "  - Firewall present: "@ + flag_text(caps.has_firewall)),
        (LogLevel::Info, "  - Network permissions required: "@ + flag_text(caps.requires_network_permissions)),
    ]
}

fn render_status_line(i: &NetworkInterface) -> (res: (LogLevel, String))
    ensures
        (res.0, res.1@) == status_line(i@),
{
    let mut t = owned("  - ");
    push_str(&mut t, i.name.as_str());
    push_str(&mut t, " (");
    let ip = i.ip_address.to_text();
    push_str(&mut t, ip.as_str());
    push_str(&mut t, "): ");
    push_str(&mut t, if i.is_up { "UP" } else { "DOWN" });
    push_str(&mut t, " [");
    let kind = render_interface_type(&i.interface_type);
    let lower = to_lowercase(kind.as_str());
    push_str(&mut t, lower.as_str());
    push_str(&mut t, "] [");
    push_str(&mut t, if i.supports_multicast { "multicast" } else { "no-multicast" });
    push_str(&mut t, "] [");
    push_str(&mut t, if i.is_loopback { "loopback" } else { "physical" });
    push_str(&mut t, "]");
    (LogLevel::Info, t)
}

/// The lines of the network status report for a detected platform.
pub fn log_network_status(info: &PlatformInfo) -> (res: Vec<(LogLevel, String)>)
    ensures
        log_views(res@) == network_status_lines(*info),
{
    let ghost s = interface_views(info.network_interfaces@);
    let mut v: Vec<(LogLevel, String)> = Vec::new();
    v.push((LogLevel::Info, owned("=== Network Status ===")));
    let n = info.network_interfaces.len();
    let mut d = owned("Detected ");
    push_decimal(&mut d, n as u64);
    push_str(&mut d, " network interface(s)");
    v.push((LogLevel::Info, d));
    let ghost head = log_views(v@);
    let mut k: usize = 0;
    while k < n
        invariant
            k <= n,
            n == info.network_interfaces@.len(),
            s == interface_views(info.network_interfaces@),
            log_views(v@) == head + s.subrange(0, k as int).map_values(|i: InterfaceView| status_line(i)),
        decreases n - k,
    {
        let l = render_status_line(&info.network_interfaces[k]);
        let ghost prev = log_views(v@);
        v.push(l);
        proof {
            assert(s.subrange(0, k + 1).map_values(|i: InterfaceView| status_line(i)) =~= s.subrange(
                0,
                k as int,
            ).map_values(|i: InterfaceView| status_line(i)).push(status_line(s[k as int])));
            assert(log_views(v@) =~= prev.push((l.0, l.1@)));
        }
        k = k + 1;
    }
    proof {
        assert(s.subrange(0, n as int) =~= s);
    }
    let ghost listed = log_views(v@);
    match primary_interface_index(&info.network_interfaces) {
        Some(p) => {
            let iface = &info.network_interfaces[p];
            let mut t = owned("Primary interface selected: ");
            push_str(&mut t, iface.name.as_str());
            push_str(&mut t, " (");
            let ip = iface.ip_address.to_text();
            push_str(&mut t, ip.as_str());
            push_str(&mut t, ")");
            proof {
                let c = choose|i: int| is_primary_at(s, i);
                lemma_primary_unique(s, c, p as int);
                assert(s[p as int] == iface@);
                assert((LogLevel::Info, t@) == primary_status_line(s));
            }
            v.push((LogLevel::Info, t));
        },
        None => {
            v.push((LogLevel::Warn, owned("No suitable primary interface found for DLNA operations")));
        },
    }
    proof {
        assert(log_views(v@) =~= listed.push(primary_status_line(s)));
    }
    let ghost with_primary = log_views(v@);
    let caps = &info.capabilities;
    v.push((LogLevel::Info, owned("Network capabilities:")));
    v.push(labelled_flag("  - Privileged port binding: ", caps.can_bind_privileged_ports));
    v.push(labelled_flag("  - Multicast support: ", caps.supports_multicast));
    v.push(labelled_flag("  - Firewall present: ", caps.has_firewall));
    v.push(labelled_flag("  - Network permissions required: ", caps.requires_network_permissions));
    proof {
        assert(listed == head + s.map_values(|i: InterfaceView| status_line(i)));
        assert(log_views(v@) =~= with_primary + seq![
            (LogLevel::Info, "Network capabilities:"@),
            (LogLevel::Info, "  - Privileged port binding: "@ + flag_text(caps.can_bind_privileged_ports)),
            (LogLevel::Info, "  - Multicast support: "@ + flag_text(caps.supports_multicast)),
            (LogLevel::Info, "  - Firewall present: "@ + flag_text(caps.has_firewall)),
            (LogLevel::Info, "  - Network permissions required: "@ + flag_text(caps.requires_network_permissions)),
        ]);
        assert(log_views(v@) =~= network_status_lines(*info));
    }
    v
}

/// The status line of the directory at position `k`, numbered from one.
pub open spec fn watch_entry(dirs: Seq<(Seq<char>, bool)>, k: int) -> (LogLevel, Seq<char>) {
    (
        LogLevel::Info,
        "  "@ + decimal((k + 1) as nat) + ". "@ + dirs[k].0 + " ["@ + (if dirs[k].1 {
            "accessible"@
        } else {
            "inaccessible"@
        }) + "]"@,
    )
}

/// What the file system watcher status report logs, each directory given
/// with whether it can be reached.
pub open spec fn watcher_status_lines(dirs: Seq<(Seq<char>, bool)>, active: bool) -> Seq<(LogLevel, Seq<char>)> {
    seq![
        (LogLevel::Info, "=== File System Watcher Status ==="@),
        if active {
            (LogLevel::Info, "File system watcher is active"@)
        } else {
            (LogLevel::Warn, "File system watcher is not active - file changes will not be detected"@)
        },
        (LogLevel::Info, "Monitored directories: "@ + decimal(dirs.len())),
    ] + Seq::new(dirs.len(), |k: int| watch_entry(dirs, k)) + if dirs.len() == 0 {
        seq![(LogLevel::Warn, "No directories are being monitored for file changes"@)]
    } else {
        Seq::empty()
    }
}

/// The views of directories paired with whether they can be reached.
pub open spec fn dir_states(v: Seq<(String, bool)>) -> Seq<(Seq<char>, bool)> {
    v.map_values(|d: (String, bool)| (d.0@, d.1))
}

/// The lines of the file system watcher status report.
pub fn log_file_watcher_status(watched_directories: &Vec<(String, bool)>, watcher_active: bool) -> (res: Vec<(LogLevel, String)>)
    ensures
        log_views(res@) == watcher_status_lines(dir_states(watched_directories@), watcher_active),
{
    let ghost ds = dir_states(watched_directories@);
    let mut v: Vec<(LogLevel, String)> = Vec::new();
    v.push((LogLevel::Info, owned("=== File System Watcher Status ===")));
    if watcher_active {
        v.push((LogLevel::Info, owned("File system watcher is active")));
    } else {
        v.push((LogLevel::Warn, owned("File system watcher is not active - file changes will not be detected")));
    }
    let n = watched_directories.len();
    let mut c = owned("Monitored directories: ");
    push_decimal(&mut c, n as u64);
    v.push((LogLevel::Info, c));
    let ghost head = log_views(v@);
    let mut k: usize = 0;
    while k < n
        invariant
            k <= n,
            n == watched_directories@.len(),
            ds == dir_states(watched_directories@),
            log_views(v@) == head + Seq::new(k as nat, |j: int| watch_entry(ds, j)),
        decreases n - k,
    {
        let mut t = owned("  ");
        push_decimal(&mut t, (k + 1) as u64);
        push_str(&mut t, ". ");
        push_str(&mut t, watched_directories[k].0.as_str());
        push_str(&mut t, " [");
        push_str(&mut t, if watched_directories[k].1 { "accessible" } else { "inaccessible" });
        push_str(&mut t, "]");
        proof {
            assert(ds[k as int] == (watched_directories@[k as int].0@, watched_directories@[k as int].1));
            assert(t@ == watch_entry(ds, k as int).1);
        }
        let ghost prev = log_views(v@);
        v.push((LogLevel::Info, t));
        proof {
            assert(Seq::new((k + 1) as nat, |j: int| watch_entry(ds, j)) =~= Seq::new(k as nat, |j: int| watch_entry(ds, j)).push(watch_entry(ds, k as int)));
            assert(log_views(v@) =~= prev.push(watch_entry(ds, k as int)));
        }
        k = k + 1;
    }
    let ghost listed = log_views(v@);
    if n == 0 {
        v.push((LogLevel::Warn, owned("No directories are being monitored for file changes")));
    }
    proof {
        assert(head =~= seq![
            (LogLevel::Info, "=== File System Watcher Status ==="@),
            if watcher_active {
                (LogLevel::Info, "File system watcher is active"@)
            } else {
                (LogLevel::Warn, "File system watcher is not active - file changes will not be detected"@)
            },
            (LogLevel::Info, "Monitored directories: "@ + decimal(ds.len())),
        ]);
        assert(log_views(v@) =~= listed + if n == 0 {
            seq![(LogLevel::Warn, "No directories are being monitored for file changes"@)]
        } else {
            Seq::<(LogLevel, Seq<char>)>::empty()
        });
        assert(log_views(v@) =~= watcher_status_lines(ds, watcher_active));
    }
    v
}

/// What the configuration status report logs: the configuration file, if
/// one is named, whether it exists and is valid (with its errors), and the
/// settings left at their defaults.
pub open spec fn configuration_status_lines(
    path: Option<Seq<char>>,
    exists: bool,
    valid: bool,
    errors: Seq<Seq<char>>,
    defaults: Seq<Seq<char>>,
) -> Seq<(LogLevel, Seq<char>)> {
    seq![(LogLevel::Info, "=== Configuration Status ==="@)] + match path {
        Some(p) => seq![(LogLevel::Info, "Configuration file: "@ + p)] + if exists {
            seq![(LogLevel::Info, "Configuration file exists"@)] + if valid {
                seq![(LogLevel::Info, "Configuration is valid"@)]
            } else {
                seq![(LogLevel::Error, "Configuration contains errors:"@)] + errors.map_values(
                    |e: Seq<char>| (LogLevel::Error, "  - "@ + e),
                )
            }
        } else {
            seq![(LogLevel::Warn, "Configuration file not found - using defaults"@)]
        },
        None => seq![(LogLevel::Info, "No configuration file specified - using built-in defaults"@)],
    } + if defaults.len() == 0 {
        Seq::empty()
    } else {
        seq![(LogLevel::Info, "Using default values for:"@)] + defaults.map_values(
            |d: Seq<char>| (LogLevel::Info, "  - "@ + d),
        )
    }
}

fn push_items(v: &mut Vec<(LogLevel, String)>, level: LogLevel, items: &Vec<String>)
    ensures
        log_views(final(v)@) == log_views(old(v)@) + texts(items@).map_values(|e: Seq<char>| (level, "  - "@ + e)),
{
    let ghost start = log_views(v@);
    let ghost its = texts(items@);
    let mut k: usize = 0;
    while k < items.len()
        invariant
            k <= items.len(),
            its == texts(items@),
            log_views(v@) == start + its.subrange(0, k as int).map_values(|e: Seq<char>| (level, "  - "@ + e)),
        decreases items.len() - k,
    {
        let mut t = owned("  - ");
        push_str(&mut t, items[k].as_str());
        let ghost prev = log_views(v@);
        v.push((level, t));
        proof {
            assert(its[k as int] == items@[k as int]@);
            assert(its.subrange(0, k + 1).map_values(|e: Seq<char>| (level, "  - "@ + e)) =~= its.subrange(
                0,
                k as int,
            ).map_values(|e: Seq<char>| (level, "  - "@ + e)).push((level, "  - "@ + its[k as int])));
            assert(log_views(v@) =~= prev.push((level, "  - "@ + its[k as int])));
        }
        k = k + 1;
    }
    proof {
        assert(its.subrange(0, its.len() as int) =~= its);
    }
}

/// The lines of the configuration status report; `config_exists` says
/// whether the named file exists.
pub fn log_configuration_status(
    config_path: Option<&str>,
    config_exists: bool,
    config_valid: bool,
    config_errors: &Vec<String>,
    using_defaults: &Vec<String>,
) -> (res: Vec<(LogLevel, String)>)
    ensures
        log_views(res@) == configuration_status_lines(
            match config_path {
                Some(p) => Some(p@),
                None => None,
            },
            config_exists,
            config_valid,
            texts(config_errors@),
            texts(using_defaults@),
        ),
{
    let ghost pv = match config_path {
        Some(p) => Some(p@),
        None => None::<Seq<char>>,
    };
    let ghost errs = texts(config_errors@);
    let ghost defs = texts(using_defaults@);
    let mut v: Vec<(LogLevel, String)> = Vec::new();
    v.push((LogLevel::Info, owned("=== Configuration Status ===")));
    let ghost head = log_views(v@);
    match config_path {
        Some(p) => {
            let mut t = owned("Configuration file: ");
            push_str(&mut t, p);
            v.push((LogLevel::Info, t));
            let ghost named = log_views(v@);
            if config_exists {
                v.push((LogLevel::Info, owned("Configuration file exists")));
                let ghost there = log_views(v@);
                if config_valid {
                    v.push((LogLevel::Info, owned("Configuration is valid")));
                } else {
                    v.push((LogLevel::Error, owned("Configuration contains errors:")));
                    push_items(&mut v, LogLevel::Error, config_errors);
                }
                proof {
                    assert(log_views(v@) =~= there + if config_valid {
                        seq![(LogLevel::Info, "Configuration is valid"@)]
                    } else {
                        seq![(LogLevel::Error, "Configuration contains errors:"@)] + errs.map_values(
                            |e: Seq<char>| (LogLevel::Error, "  - "@ + e),
                        )
                    });
                }
            } else {
                v.push((LogLevel::Warn, owned("Configuration file not found - using defaults")));
            }
            proof {
                assert(named =~= head.push((LogLevel::Info, "Configuration file: "@ + p@)));
            }
        },
        None => {
            v.push((LogLevel::Info, owned("No configuration file specified - using built-in defaults")));
        },
    }
    let ghost middle = log_views(v@);
    proof {
        assert(middle =~= head + match pv {
            Some(p) => seq![(LogLevel::Info, "Configuration file: "@ + p)] + if config_exists {
                seq![(LogLevel::Info, "Configuration file exists"@)] + if config_valid {
                    seq![(LogLevel::Info, "Configuration is valid"@)]
                } else {
                    seq![(LogLevel::Error, "Configuration contains errors:"@)] + errs.map_values(
                        |e: Seq<char>| (LogLevel::Error, "  - "@ + e),
                    )
                }
            } else {
                seq![(LogLevel::Warn, "Configuration file not found - using defaults"@)]
            },
            None => seq![(LogLevel::Info, "No configuration file specified - using built-in defaults"@)],
        });
    }
    if using_defaults.len() > 0 {
        v.push((LogLevel::Info, owned("Using default values for:")));
        push_items(&mut v, LogLevel::Info, using_defaults);
    }
    proof {
        assert(log_views(v@) =~= middle + if defs.len() == 0 {
            Seq::<(LogLevel, Seq<char>)>::empty()
        } else {
            seq![(LogLevel::Info, "Using default values for:"@)] + defs.map_values(
                |d: Seq<char>| (LogLevel::Info, "  - "@ + d),
            )
        });
        assert(log_views(v@) =~= configuration_status_lines(pv, config_exists, config_valid, errs, defs));
    }
    v
}

/// An uptime as whole hours and the minutes past them.
pub open spec fn uptime_text(seconds: u64) -> Seq<char> {
    decimal((seconds / 3600) as nat) + "h "@ + decimal(((seconds % 3600) / 60) as nat) + "m"@
}

fn push_uptime(t: &mut String, seconds: u64)
    ensures
        final(t)@ == old(t)@ + uptime_text(seconds),
{
    push_decimal(t, seconds / 3600);
    push_str(t, "h ");
    push_decimal(t, (seconds % 3600) / 60);
    push_str(t, "m");
}

/// What a periodic status update logs.
pub open spec fn periodic_status_lines(uptime: u64, connections: usize, served: u64, errors: u64) -> Seq<
    (LogLevel, Seq<char>),
> {
    seq![
        (LogLevel::Info, "=== Periodic Status Update ==="@),
        (LogLevel::Info, "Uptime: "@ + uptime_text(uptime)),
        (LogLevel::Info, "Active DLNA connections: "@ + decimal(connections as nat)),
        (LogLevel::Info, "Files served since startup: "@ + decimal(served as nat)),
        if errors > 0 {
            (LogLevel::Warn, "Errors since startup: "@ + decimal(errors as nat))
        } else {
            (LogLevel::Info, "No errors since startup"@)
        },
    ]
}

/// The lines of a periodic status update.
pub fn log_periodic_status(
    uptime_seconds: u64,
    active_connections: usize,
    files_served: u64,
    errors_since_start: u64,
) -> (res: Vec<(LogLevel, String)>)
    ensures
        log_views(res@) == periodic_status_lines(uptime_seconds, active_connections, files_served, errors_since_start),
{
    let mut v: Vec<(LogLevel, String)> = Vec::new();
    v.push((LogLevel::Info, owned("=== Periodic Status Update ===")));
    let mut u = owned("Uptime: ");
    push_uptime(&mut u, uptime_seconds);
    v.push((LogLevel::Info, u));
    let mut c = owned("Active DLNA connections: ");
    push_decimal(&mut c, active_connections as u64);
    v.push((LogLevel::Info, c));
    let mut f = owned("Files served since startup: ");
    push_decimal(&mut f, files_served);
    v.push((LogLevel::Info, f));
    if errors_since_start > 0 {
        let mut e = owned("Errors since startup: ");
        push_decimal(&mut e, errors_since_start);
        v.push((LogLevel::Warn, e));
    } else {
        v.push((LogLevel::Info, owned("No errors since startup")));
    }
    proof {
        assert(log_views(v@) =~= periodic_status_lines(uptime_seconds, active_connections, files_served, errors_since_start));
    }
    v
}

/// What is logged at shutdown.
pub open spec fn shutdown_lines(graceful: bool, uptime: u64) -> Seq<(LogLevel, Seq<char>)> {
    seq![
        (LogLevel::Info, "=== VuIO Server Shutting Down ==="@),
        (LogLevel::Info, "Shutdown type: "@ + if graceful {
            "Graceful"@
        } else {
            "Forced"@
        }),
        (LogLevel::Info, "Total uptime: "@ + uptime_text(uptime)),
        if graceful {
            (LogLevel::Info, "All resources cleaned up successfully"@)
        } else {
            (LogLevel::Warn, "Forced shutdown - some resources may not have been cleaned up properly"@)
        },
        (LogLevel::Info, "=== Shutdown Complete ==="@),
    ]
}

/// The lines logged at shutdown.
pub fn log_shutdown_info(graceful: bool, uptime_seconds: u64) -> (res: Vec<(LogLevel, String)>)
    ensures
        log_views(res@) == shutdown_lines(graceful, uptime_seconds),
{
    let mut v: Vec<(LogLevel, String)> = Vec::new();
    v.push((LogLevel::Info, owned("=== VuIO Server Shutting Down ===")));
    let mut t = owned("Shutdown type: ");
    push_str(&mut t, if graceful { "Graceful" } else { "Forced" });
    v.push((LogLevel::Info, t));
    let mut u = owned("Total uptime: ");
    push_uptime(&mut u, uptime_seconds);
    v.push((LogLevel::Info, u));
    if graceful {
        v.push((LogLevel::Info, owned("All resources cleaned up successfully")));
    } else {
        v.push((LogLevel::Warn, owned("Forced shutdown - some resources may not have been cleaned up properly")));
    }
    v.push((LogLevel::Info, owned("=== Shutdown Complete ===")));
    proof {
        assert(log_views(v@) =~= shutdown_lines(graceful, uptime_seconds));
    }
    v
}

/// What is logged when a platform feature is unavailable, by feature, with
/// the error's message.
pub open spec fn feature_unavailable_lines(feature: Seq<char>, error: Seq<char>) -> Seq<(LogLevel, Seq<char>)> {
    if feature == "multicast"@ {
        seq![
            (LogLevel::Warn, "Multicast networking unavailable: "@ + error),
            (LogLevel::Warn, "DLNA discovery will be limited - clients may need manual configuration"@),
            (LogLevel::Info, "Consider using unicast discovery or manual IP configuration"@),
        ]
    } else if feature == "privileged_ports"@ {
        seq![
            (LogLevel::Warn, "Privileged port access unavailable: "@ + error),
            (LogLevel::Info, "Using alternative ports for DLNA services"@),
            (LogLevel::Info, "SSDP will use port 8080 instead of 1900"@),
        ]
    } else if feature == "file_watching"@ {
        seq![
            (LogLevel::Warn, "File system watching unavailable: "@ + error),
            (LogLevel::Warn, "Media library changes will not be detected automatically"@),
            (LogLevel::Info, "Consider periodic manual rescans or application restart after adding media"@),
        ]
    } else if feature == "database"@ {
        seq![
            (LogLevel::Error, "Database functionality unavailable: "@ + error),
            (LogLevel::Error, "Media library persistence will not work"@),
            (LogLevel::Warn, "Falling back to in-memory media scanning on each startup"@),
        ]
    } else if feature == "network_interfaces"@ {
        seq![
            (LogLevel::Error, "No network interfaces available: "@ + error),
            (LogLevel::Error, "DLNA functionality will be severely limited"@),
            (LogLevel::Warn, "Check network configuration and try again"@),
        ]
    } else {
        seq![(LogLevel::Warn, "Platform feature '"@ + feature + "' unavailable: "@ + error)]
    }
}

fn with_error(level: LogLevel, head: &str, error: &str) -> (res: (LogLevel, String))
    ensures
        res.0 == level,
        res.1@ == head@ + error@,
{
    let mut t = owned(head);
    push_str(&mut t, error);
    (level, t)
}

/// The lines logged when the platform feature `feature` is unavailable,
/// `error` being the message of what went wrong.
pub fn handle_platform_feature_unavailable(feature: &str, error: &str) -> (res: Vec<(LogLevel, String)>)
    ensures
        log_views(res@) == feature_unavailable_lines(feature@, error@),
{
    let f = crate::text::chars_of(feature);
    let mut v: Vec<(LogLevel, String)> = Vec::new();
    if crate::text::eq_str(f.as_slice(), "multicast") {
        v.push(with_error(LogLevel::Warn, "Multicast networking unavailable: ", error));
        v.push((LogLevel::Warn, owned("DLNA discovery will be limited - clients may need manual configuration")));
        v.push((LogLevel::Info, owned("Consider using unicast discovery or manual IP configuration")));
    } else if crate::text::eq_str(f.as_slice(), "privileged_ports") {
        v.push(with_error(LogLevel::Warn, "Privileged port access unavailable: ", error));
        v.push((LogLevel::Info, owned("Using alternative ports for DLNA services")));
        v.push((LogLevel::Info, owned("SSDP will use port 8080 instead of 1900")));
    } else if crate::text::eq_str(f.as_slice(), "file_watching") {
        v.push(with_error(LogLevel::Warn, "File system watching unavailable: ", error));
        v.push((LogLevel::Warn, owned("Media library changes will not be detected automatically")));
        v.push((LogLevel::Info, owned("Consider periodic manual rescans or application restart after adding media")));
    } else if crate::text::eq_str(f.as_slice(), "database") {
        v.push(with_error(LogLevel::Error, "Database functionality unavailable: ", error));
        v.push((LogLevel::Error, owned("Media library persistence will not work")));
        v.push((LogLevel::Warn, owned("Falling back to in-memory media scanning on each startup")));
    } else if crate::text::eq_str(f.as_slice(), "network_interfaces") {
        v.push(with_error(LogLevel::Error, "No network interfaces available: ", error));
        v.push((LogLevel::Error, owned("DLNA functionality will be severely limited")));
        v.push((LogLevel::Warn, owned("Check network configuration and try again")));
    } else {
        let mut t = owned("Platform feature '");
        push_str(&mut t, feature);
        push_str(&mut t, "' unavailable: ");
        push_str(&mut t, error);
        v.push((LogLevel::Warn, t));
    }
    proof {
        assert(log_views(v@) =~= feature_unavailable_lines(feature@, error@));
    }
    v
}

} // verus!
