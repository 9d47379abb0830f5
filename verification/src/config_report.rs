//! What the configuration tells the user: best-practice findings, platform
//! recommendations, the commented configuration file, and the events a
//! configuration change raises.
use vstd::prelude::*;
use crate::config::{
    defaults_applied, law_defaults_cover_patterns, law_defaults_extensions, AppConfig, DirectoryView,
    NetworkInterfaceConfig,
};
use crate::debug_fmt::{debug_list, debug_number_list, debug_numbers, debug_string_list};
use crate::path::join;
use crate::platform::OsType;
use crate::platform_config::{exclude_patterns_spec, media_extensions_spec, preferred_ports_spec, PlatformConfig};
use crate::text::{
    around_decimal, concat2, decimal, has_prefix, lines, owned, push_str, split_lines,
    starts_with, texts, views,
};

verus! {

// ---------------------------------------------------------------------------
// Best practices
// ---------------------------------------------------------------------------

/// The items of `wanted` that `have` lacks, in order.
pub open spec fn missing_from(wanted: Seq<Seq<char>>, have: Seq<Seq<char>>) -> Seq<Seq<char>>
    decreases wanted.len(),
{
    if wanted.len() == 0 {
        Seq::empty()
    } else {
        missing_from(wanted.drop_last(), have) + if have.contains(wanted.last()) {
            Seq::<Seq<char>>::empty()
        } else {
            seq![wanted.last()]
        }
    }
}

/// The finding for a directory lacking a recommended exclude pattern.
pub open spec fn missing_pattern_text(index: nat, pattern: Seq<char>) -> Seq<char> {
    "Directory "@ + decimal(index) + " missing recommended exclude pattern: "@ + pattern
}

/// The findings for the directories from position `from` on.
pub open spec fn directory_findings(dirs: Seq<DirectoryView>, wanted: Seq<Seq<char>>, n: nat) -> Seq<Seq<char>>
    decreases n,
{
    if n == 0 {
        Seq::empty()
    } else {
        let k = (n - 1) as nat;
        let have = match dirs[k as int].exclude_patterns {
            Some(p) => p,
            None => Seq::empty(),
        };
        directory_findings(dirs, wanted, k) + missing_from(wanted, have).map_values(
            |p: Seq<char>| missing_pattern_text(k, p),
        )
    }
}

/// The findings that depend on the operating system.
pub open spec fn os_findings(os: OsType, port: u16, ssdp_port: u16) -> Seq<Seq<char>> {
    match os {
        OsType::Windows => (if port < 1024 {
            seq!["Server port requires administrator privileges on Windows"@]
        } else {
            Seq::empty()
        }) + (if ssdp_port < 1024 && ssdp_port != 1900 {
            seq!["SSDP port requires administrator privileges on Windows"@]
        } else {
            Seq::empty()
        }),
        OsType::MacOS => if port < 1024 {
            seq!["Server port requires administrator privileges on macOS"@]
        } else {
            Seq::empty()
        },
        OsType::Linux => if port < 1024 {
            seq!["Server port requires root privileges on Linux"@]
        } else {
            Seq::empty()
        },
    }
}

/// Every finding of the best-practice check, in the order reported.
pub open spec fn best_practice_findings(c: AppConfig, p: PlatformConfig) -> Seq<Seq<char>> {
    let ports = p.preferred_ports@;
    let port_findings = if ports.contains(c.server.port) {
        Seq::empty()
    } else {
        seq![
            "Server port "@ + decimal(c.server.port as nat) + " is not in recommended ports: "@
                + debug_numbers(ports),
        ]
    };
    let missing = missing_from(media_extensions_spec(p.os_type), texts(c.media.supported_extensions@));
    let ext_findings = if missing.len() == 0 {
        Seq::empty()
    } else {
        seq!["Missing recommended media extensions: "@ + debug_list(missing)]
    };
    port_findings + directory_findings(c.dirs(), exclude_patterns_spec(p.os_type), c.dirs().len())
        + ext_findings + os_findings(p.os_type, c.server.port, c.network.ssdp_port)
}

/// Nothing is missing when every wanted item is there.
proof fn lemma_nothing_missing(wanted: Seq<Seq<char>>, have: Seq<Seq<char>>)
    requires
        forall|i: int| 0 <= i < wanted.len() ==> have.contains(#[trigger] wanted[i]),
    ensures
        missing_from(wanted, have) == Seq::<Seq<char>>::empty(),
    decreases wanted.len(),
{
    if wanted.len() > 0 {
        let w = wanted.drop_last();
        assert forall|i: int| 0 <= i < w.len() implies have.contains(#[trigger] w[i]) by {
            assert(w[i] == wanted[i]);
        }
        lemma_nothing_missing(w, have);
        assert(have.contains(wanted[wanted.len() - 1]));
        assert(missing_from(wanted, have) =~= Seq::<Seq<char>>::empty());
    }
}

/// A directory sets exclude patterns that hold every wanted one.
pub open spec fn holds_all_patterns(d: DirectoryView, wanted: Seq<Seq<char>>) -> bool {
    d.exclude_patterns matches Some(ps) && forall|i: int| 0 <= i < wanted.len() ==> ps.contains(#[trigger] wanted[i])
}

/// No directory finding arises when every directory holds every wanted
/// pattern.
proof fn lemma_no_directory_findings(dirs: Seq<DirectoryView>, wanted: Seq<Seq<char>>, n: nat)
    requires
        n <= dirs.len(),
        forall|k: int| 0 <= k < dirs.len() ==> holds_all_patterns(#[trigger] dirs[k], wanted),
    ensures
        directory_findings(dirs, wanted, n) == Seq::<Seq<char>>::empty(),
    decreases n,
{
    if n > 0 {
        let k = (n - 1) as nat;
        lemma_no_directory_findings(dirs, wanted, k);
        let ps = dirs[k as int].exclude_patterns->0;
        lemma_nothing_missing(wanted, ps);
        assert(missing_from(wanted, ps).map_values(|p: Seq<char>| missing_pattern_text(k, p))
            =~= Seq::<Seq<char>>::empty());
        assert(directory_findings(dirs, wanted, n) =~= Seq::<Seq<char>>::empty());
    }
}

/// A configuration with the platform's defaults applied, on one of the
/// platform's preferred ports (and, on Windows, with an SSDP port that
/// needs no privileges or is the standard one), has no best-practice
/// finding.
pub proof fn law_defaults_meet_best_practices(c0: AppConfig, c1: AppConfig, p: PlatformConfig, name: Seq<char>)
    requires
        defaults_applied(c0, c1, p, name),
        p.preferred_ports@ == preferred_ports_spec(),
        p.preferred_ports@.contains(c1.server.port),
        p.os_type == OsType::Windows ==> c1.network.ssdp_port >= 1024 || c1.network.ssdp_port == 1900,
    ensures
        best_practice_findings(c1, p) == Seq::<Seq<char>>::empty(),
{
    let os = p.os_type;
    let wanted = exclude_patterns_spec(os);
    let ds = c1.dirs();
    assert forall|k: int| 0 <= k < ds.len() implies holds_all_patterns(#[trigger] ds[k], wanted) by {
        law_defaults_cover_patterns(c0.dirs()[k].exclude_patterns, wanted);
    }
    lemma_no_directory_findings(ds, wanted, ds.len());
    let exts = media_extensions_spec(os);
    assert(exts.len() > 0);
    law_defaults_extensions(texts(c0.media.supported_extensions@), exts);
    lemma_nothing_missing(exts, texts(c1.media.supported_extensions@));
    let port = c1.server.port;
    let j = choose|j: int| 0 <= j < p.preferred_ports@.len() && p.preferred_ports@[j] == port;
    assert(port >= 1024);
    assert(os_findings(os, port, c1.network.ssdp_port) =~= Seq::<Seq<char>>::empty());
    assert(best_practice_findings(c1, p) =~= Seq::<Seq<char>>::empty());
}

pub(crate) fn contains_text(v: &Vec<String>, p: &String) -> (res: bool)
    ensures
        res == texts(v@).contains(p@),
{
    let mut i: usize = 0;
    while i < v.len()
        invariant
            i <= v.len(),
            forall|j: int| 0 <= j < i ==> (#[trigger] v@[j])@ != p@,
        decreases v.len() - i,
    {
        if v[i].eq(p) {
            assert(texts(v@)[i as int] == p@);
            return true;
        }
        i = i + 1;
    }
    proof {
        if texts(v@).contains(p@) {
            let j = choose|j: int| 0 <= j < texts(v@).len() && texts(v@)[j] == p@;
            assert(v@[j]@ == p@);
        }
    }
    false
}

/// The items of `wanted` that `have` lacks.
fn missing_items(wanted: &Vec<String>, have: &Vec<String>) -> (res: Vec<String>)
    ensures
        texts(res@) == missing_from(texts(wanted@), texts(have@)),
{
    let mut r: Vec<String> = Vec::new();
    let mut i: usize = 0;
    while i < wanted.len()
        invariant
            i <= wanted.len(),
            texts(r@) == missing_from(texts(wanted@).subrange(0, i as int), texts(have@)),
        decreases wanted.len() - i,
    {
        proof {
            assert(texts(wanted@).subrange(0, i + 1).drop_last() =~= texts(wanted@).subrange(0, i as int));
        }
        let ghost prev = r@;
        if !contains_text(have, &wanted[i]) {
            r.push(wanted[i].clone());
            proof {
                assert(texts(r@) =~= texts(prev) + seq![wanted@[i as int]@]);
            }
        } else {
            proof {
                assert(texts(r@) =~= texts(prev) + Seq::<Seq<char>>::empty());
            }
        }
        i = i + 1;
    }
    proof {
        assert(texts(wanted@).subrange(0, wanted@.len() as int) =~= texts(wanted@));
    }
    r
}

impl AppConfig {
    /// Check whether the configuration follows the platform's best
    /// practices, listing each departure.
    pub fn check_platform_best_practices(&self, platform_config: &PlatformConfig) -> (res: Vec<String>)
        ensures
            texts(res@) == best_practice_findings(*self, *platform_config),
    {
        let mut issues: Vec<String> = Vec::new();
        let ports = &platform_config.preferred_ports;
        let mut in_ports = false;
        let mut k: usize = 0;
        while k < ports.len()
            invariant
                k <= ports.len(),
                in_ports == exists|j: int| 0 <= j < k && ports@[j] == self.server.port,
            decreases ports.len() - k,
        {
            if ports[k] == self.server.port {
                in_ports = true;
            }
            k = k + 1;
        }
        assert(in_ports == ports@.contains(self.server.port));
        if !in_ports {
            let mut s = around_decimal("Server port ", self.server.port as u64, " is not in recommended ports: ");
            let d = debug_number_list(ports);
            push_str(&mut s, d.as_str());
            issues.push(s);
        }
        let ghost port_part = texts(issues@);
        let wanted = platform_config.get_default_exclude_patterns();
        let dirs = &self.media.directories;
        let mut i: usize = 0;
        while i < dirs.len()
            invariant
                i <= dirs.len(),
                texts(wanted@) == exclude_patterns_spec(platform_config.os_type),
                dirs@ == self.media.directories@,
                texts(issues@) == port_part + directory_findings(self.dirs(), texts(wanted@), i as nat),
            decreases dirs.len() - i,
        {
            let empty: Vec<String> = Vec::new();
            let have = match &dirs[i].exclude_patterns {
                Some(p) => p,
                None => &empty,
            };
            proof {
                assert(self.dirs()[i as int] == dirs@[i as int]@);
                assert(texts(empty@) =~= Seq::<Seq<char>>::empty());
            }
            let missing = missing_items(&wanted, have);
            let ghost before = texts(issues@);
            let mut j: usize = 0;
            while j < missing.len()
                invariant
                    j <= missing.len(),
                    texts(issues@) =~= before + texts(missing@).subrange(0, j as int).map_values(
                        |p: Seq<char>| missing_pattern_text(i as nat, p),
                    ),
                decreases missing.len() - j,
            {
                let mut s = around_decimal("Directory ", i as u64, " missing recommended exclude pattern: ");
                push_str(&mut s, missing[j].as_str());
                let ghost prev = issues@;
                issues.push(s);
                proof {
                    assert(texts(issues@) =~= texts(prev).push(missing_pattern_text(i as nat, missing@[j as int]@)));
                    assert(texts(missing@).subrange(0, j + 1).map_values(|p: Seq<char>| missing_pattern_text(i as nat, p))
                        =~= texts(missing@).subrange(0, j as int).map_values(|p: Seq<char>| missing_pattern_text(i as nat, p)).push(
                            missing_pattern_text(i as nat, missing@[j as int]@)));
                }
                j = j + 1;
            }
            proof {
                assert(texts(missing@).subrange(0, missing@.len() as int) =~= texts(missing@));
            }
            i = i + 1;
        }
        let ghost dir_part = texts(issues@);
        assert(dir_part == port_part + directory_findings(self.dirs(), exclude_patterns_spec(platform_config.os_type), self.dirs().len()));
        let exts = platform_config.get_default_media_extensions();
        let missing_exts = missing_items(&exts, &self.media.supported_extensions);
        if missing_exts.len() > 0 {
            let d = debug_string_list(&missing_exts);
            issues.push(concat2("Missing recommended media extensions: ", d.as_str()));
        }
        let ghost ext_part = texts(issues@);
        assert(ext_part =~= dir_part + {
            let missing = missing_from(media_extensions_spec(platform_config.os_type), texts(self.media.supported_extensions@));
            if missing.len() == 0 {
                Seq::<Seq<char>>::empty()
            } else {
                seq!["Missing recommended media extensions: "@ + debug_list(missing)]
            }
        });
        let port = self.server.port;
        let ssdp = self.network.ssdp_port;
        match platform_config.os_type {
            OsType::Windows => {
                if port < 1024 {
                    issues.push(owned("Server port requires administrator privileges on Windows"));
                }
                if ssdp < 1024 && ssdp != 1900 {
                    issues.push(owned("SSDP port requires administrator privileges on Windows"));
                }
            },
            OsType::MacOS => {
                if port < 1024 {
                    issues.push(owned("Server port requires administrator privileges on macOS"));
                }
            },
            OsType::Linux => {
                if port < 1024 {
                    issues.push(owned("Server port requires root privileges on Linux"));
                }
            },
        }
        proof {
            assert(texts(issues@) =~= ext_part + os_findings(platform_config.os_type, port, ssdp));
            assert(texts(issues@) =~= best_practice_findings(*self, *platform_config));
        }
        issues
    }
}

// ---------------------------------------------------------------------------
// Recommendations
// ---------------------------------------------------------------------------

/// The platform-specific recommendations.
pub open spec fn os_recommendations(os: OsType) -> Seq<Seq<char>> {
    match os {
        OsType::Windows => seq![
            "Use ports 8080-8082 to avoid administrator privilege requirements"@,
            "Configure Windows Firewall to allow OpenDLNA Server"@,
            "UNC paths (\\\\server\\share) are supported for network drives"@,
            "Exclude Windows system files: Thumbs.db, desktop.ini"@,
            "Consider using Windows Service for automatic startup"@,
        ],
        OsType::MacOS => seq![
            "Grant network access permissions when prompted by macOS"@,
            "Use ports 8080-8082 to avoid administrator privilege requirements"@,
            "Network mounted volumes under /Volumes are supported"@,
            "Exclude macOS system files: .DS_Store, .AppleDouble"@,
            "Consider using launchd for automatic startup"@,
        ],
        OsType::Linux => seq![
            "Use ports 8080-8082 to avoid root privilege requirements"@,
            "Configure SELinux/AppArmor policies if file access is denied"@,
            "Mounted filesystems under /media and /mnt are supported"@,
            "Exclude Linux system directories: lost+found, .Trash-*"@,
            "Consider using systemd for automatic startup"@,
        ],
    }
}

/// All recommendations for a platform, given its media directories.
pub open spec fn recommendations_spec(p: PlatformConfig, media_dirs: Seq<Seq<char>>) -> Seq<Seq<char>> {
    let win = p.os_type == OsType::Windows;
    os_recommendations(p.os_type) + seq![
        "Recommended media directories: "@ + debug_list(media_dirs),
        "Configuration will be stored in: "@ + join(p.config_dir@, "config.toml"@, win),
        "Database will be stored in: "@ + join(p.database_dir@, "media.db"@, win),
    ]
}

impl AppConfig {
    /// The platform-specific configuration recommendations, given the
    /// platform's media directories.
    pub fn get_platform_recommendations(platform_config: &PlatformConfig, media_dirs: &Vec<String>) -> (res: Vec<String>)
        ensures
            texts(res@) == recommendations_spec(*platform_config, texts(media_dirs@)),
    {
        let mut r: Vec<String> = Vec::new();
        match platform_config.os_type {
            OsType::Windows => {
                r.push(owned("Use ports 8080-8082 to avoid administrator privilege requirements"));
                r.push(owned("Configure Windows Firewall to allow OpenDLNA Server"));
                r.push(owned("UNC paths (\\\\server\\share) are supported for network drives"));
                r.push(owned("Exclude Windows system files: Thumbs.db, desktop.ini"));
                r.push(owned("Consider using Windows Service for automatic startup"));
            },
            OsType::MacOS => {
                r.push(owned("Grant network access permissions when prompted by macOS"));
                r.push(owned("Use ports 8080-8082 to avoid administrator privilege requirements"));
                r.push(owned("Network mounted volumes under /Volumes are supported"));
                r.push(owned("Exclude macOS system files: .DS_Store, .AppleDouble"));
                r.push(owned("Consider using launchd for automatic startup"));
            },
            OsType::Linux => {
                r.push(owned("Use ports 8080-8082 to avoid root privilege requirements"));
                r.push(owned("Configure SELinux/AppArmor policies if file access is denied"));
                r.push(owned("Mounted filesystems under /media and /mnt are supported"));
                r.push(owned("Exclude Linux system directories: lost+found, .Trash-*"));
                r.push(owned("Consider using systemd for automatic startup"));
            },
        }
        let d = debug_string_list(media_dirs);
        r.push(concat2("Recommended media directories: ", d.as_str()));
        let c = platform_config.get_config_file_path();
        r.push(concat2("Configuration will be stored in: ", c.as_str()));
        let b = platform_config.get_database_path();
        r.push(concat2("Database will be stored in: ", b.as_str()));
        proof {
            assert(texts(r@) =~= recommendations_spec(*platform_config, texts(media_dirs@)));
        }
        r
    }
}

// ---------------------------------------------------------------------------
// The commented configuration file
// ---------------------------------------------------------------------------

/// The platform's display name in the configuration file header.
pub open spec fn os_label(os: OsType) -> Seq<char> {
    match os {
        OsType::Windows => "Windows"@,
        OsType::MacOS => "macOS"@,
        OsType::Linux => "Linux"@,
    }
}

/// The comment written before a line of the serialized configuration.
pub open spec fn line_comment(line: Seq<char>, p: PlatformConfig, media_dirs: Seq<Seq<char>>) -> Seq<char> {
    let win = p.os_type == OsType::Windows;
    if starts_with(line, "[server]"@) {
        "# Server configuration\n"@ + "# Recommended ports for this platform: "@ + debug_numbers(p.preferred_ports@)
            + "\n"@
    } else if starts_with(line, "[network]"@) {
        "\n# Network configuration\n# SSDP is used for DLNA device discovery\n"@
    } else if starts_with(line, "[media]"@) {
        "\n# Media configuration\n# Default media directories for this platform: "@ + debug_list(media_dirs) + "\n"@
    } else if starts_with(line, "[database]"@) {
        "\n# Database configuration\n# Platform default database location: "@ + join(
            p.database_dir@,
            "media.db"@,
            win,
        ) + "\n"@
    } else if starts_with(line, "[[media.directories]]"@) {
        "\n# Monitored media directories\n# Platform-specific exclude patterns: "@ + debug_list(
            exclude_patterns_spec(p.os_type),
        ) + "\n"@
    } else {
        Seq::empty()
    }
}

/// The annotated lines: each preceded by its comment and ended by a newline.
pub open spec fn annotated_lines(ls: Seq<Seq<char>>, p: PlatformConfig, media_dirs: Seq<Seq<char>>) -> Seq<char>
    decreases ls.len(),
{
    if ls.len() == 0 {
        Seq::empty()
    } else {
        annotated_lines(ls.drop_last(), p, media_dirs) + line_comment(ls.last(), p, media_dirs) + ls.last()
            + seq!['\n']
    }
}

/// The notes closing the configuration file.
pub open spec fn closing_notes(p: PlatformConfig) -> Seq<char> {
    "\n# Platform-specific notes:\n"@ + match p.os_type {
        OsType::Windows => "# - Ports below 1024 may require administrator privileges\n# - Windows Firewall may block network access\n# - UNC paths (\\\\server\\share) are supported\n# - Consider excluding 'Thumbs.db' and 'desktop.ini' files\n"@,
        OsType::MacOS => "# - System may prompt for network access permissions\n# - Ports below 1024 require administrator privileges\n# - Network mounted volumes are supported\n# - Consider excluding '.DS_Store' and '.AppleDouble' files\n"@,
        OsType::Linux => "# - Ports below 1024 require root privileges\n# - SELinux/AppArmor policies may affect file access\n# - Mounted filesystems under /media and /mnt are supported\n# - Consider excluding 'lost+found' and '.Trash-*' directories\n"@,
    } + "# - Configuration directory: "@ + p.config_dir@ + "\n# - Database directory: "@ + p.database_dir@
        + "\n# - Log directory: "@ + p.log_dir@ + "\n"@
}

/// The configuration file: a header naming the platform, the serialized
/// configuration with a comment before each section, and platform notes.
pub open spec fn annotated_toml(base: Seq<char>, p: PlatformConfig, media_dirs: Seq<Seq<char>>) -> Seq<char> {
    "# OpenDLNA Server Configuration\n# Platform: "@ + os_label(p.os_type)
        + "\n# Auto-generated configuration with platform-specific defaults\n\n"@ + annotated_lines(
        lines(base),
        p,
        media_dirs,
    ) + closing_notes(p)
}

impl AppConfig {
    fn push_line_comment(s: &mut String, line: &[char], platform_config: &PlatformConfig, media_dirs: &Vec<String>)
        ensures
            final(s)@ == old(s)@ + line_comment(line@, *platform_config, texts(media_dirs@)),
    {
        let ghost before = s@;
        if has_prefix(line, crate::text::chars_of("[server]").as_slice()) {
            push_str(s, "# Server configuration\n");
            push_str(s, "# Recommended ports for this platform: ");
            let d = debug_number_list(&platform_config.preferred_ports);
            push_str(s, d.as_str());
            push_str(s, "\n");
        } else if has_prefix(line, crate::text::chars_of("[network]").as_slice()) {
            push_str(s, "\n# Network configuration\n# SSDP is used for DLNA device discovery\n");
        } else if has_prefix(line, crate::text::chars_of("[media]").as_slice()) {
            push_str(s, "\n# Media configuration\n# Default media directories for this platform: ");
            let d = debug_string_list(media_dirs);
            push_str(s, d.as_str());
            push_str(s, "\n");
        } else if has_prefix(line, crate::text::chars_of("[database]").as_slice()) {
            push_str(s, "\n# Database configuration\n# Platform default database location: ");
            let d = platform_config.get_database_path();
            push_str(s, d.as_str());
            push_str(s, "\n");
        } else if has_prefix(line, crate::text::chars_of("[[media.directories]]").as_slice()) {
            push_str(s, "\n# Monitored media directories\n# Platform-specific exclude patterns: ");
            let pats = platform_config.get_default_exclude_patterns();
            let d = debug_string_list(&pats);
            push_str(s, d.as_str());
            push_str(s, "\n");
        }
        proof {
            assert(s@ =~= before + line_comment(line@, *platform_config, texts(media_dirs@)));
        }
    }

    /// The configuration file text: the serialized configuration
    /// `base_toml` with a header naming the platform, a comment before each
    /// section, and closing notes for the platform.
    pub fn to_toml_with_platform_comments(
        base_toml: &str,
        platform_config: &PlatformConfig,
        media_dirs: &Vec<String>,
    ) -> (res: String)
        ensures
            res@ == annotated_toml(base_toml@, *platform_config, texts(media_dirs@)),
    {
        let mut s = owned("# OpenDLNA Server Configuration\n# Platform: ");
        match platform_config.os_type {
            OsType::Windows => push_str(&mut s, "Windows"),
            OsType::MacOS => push_str(&mut s, "macOS"),
            OsType::Linux => push_str(&mut s, "Linux"),
        }
        push_str(&mut s, "\n# Auto-generated configuration with platform-specific defaults\n\n");
        let ghost head = s@;
        let ls = split_lines(crate::text::chars_of(base_toml).as_slice());
        let mut i: usize = 0;
        while i < ls.len()
            invariant
                i <= ls.len(),
                s@ == head + annotated_lines(views(ls@).subrange(0, i as int), *platform_config, texts(media_dirs@)),
            decreases ls.len() - i,
        {
            proof {
                assert(views(ls@).subrange(0, i + 1).drop_last() =~= views(ls@).subrange(0, i as int));
                assert(views(ls@)[i as int] == ls@[i as int]@);
            }
            Self::push_line_comment(&mut s, ls[i].as_slice(), platform_config, media_dirs);
            crate::text::push_chars(&mut s, ls[i].as_slice());
            crate::text::push_char(&mut s, '\n');
            i = i + 1;
        }
        proof {
            assert(views(ls@).subrange(0, ls@.len() as int) =~= views(ls@));
        }
        let ghost body = s@;
        push_str(&mut s, "\n# Platform-specific notes:\n");
        match platform_config.os_type {
            OsType::Windows => push_str(&mut s, "# - Ports below 1024 may require administrator privileges\n# - Windows Firewall may block network access\n# - UNC paths (\\\\server\\share) are supported\n# - Consider excluding 'Thumbs.db' and 'desktop.ini' files\n"),
            OsType::MacOS => push_str(&mut s, "# - System may prompt for network access permissions\n# - Ports below 1024 require administrator privileges\n# - Network mounted volumes are supported\n# - Consider excluding '.DS_Store' and '.AppleDouble' files\n"),
            OsType::Linux => push_str(&mut s, "# - Ports below 1024 require root privileges\n# - SELinux/AppArmor policies may affect file access\n# - Mounted filesystems under /media and /mnt are supported\n# - Consider excluding 'lost+found' and '.Trash-*' directories\n"),
        }
        push_str(&mut s, "# - Configuration directory: ");
        push_str(&mut s, platform_config.config_dir.as_str());
        push_str(&mut s, "\n# - Database directory: ");
        push_str(&mut s, platform_config.database_dir.as_str());
        push_str(&mut s, "\n# - Log directory: ");
        push_str(&mut s, platform_config.log_dir.as_str());
        push_str(&mut s, "\n");
        proof {
            assert(s@ =~= body + closing_notes(*platform_config));
        }
        s
    }
}

// ---------------------------------------------------------------------------
// Change events
// ---------------------------------------------------------------------------

/// A configuration change, as announced to subscribers.
#[derive(Debug, Clone)]
pub enum ConfigChangeEvent {
    /// The configuration was modified and reloaded.
    Reloaded(AppConfig),
    /// The monitored directories changed.
    DirectoriesChanged { added: Vec<String>, removed: Vec<String>, modified: Vec<String> },
    /// The network configuration changed.
    NetworkChanged {
        old_interface: NetworkInterfaceConfig,
        new_interface: NetworkInterfaceConfig,
        old_port: u16,
        new_port: u16,
    },
}

/// The distinct items of `src` that are in `other` (when `inside`) or not in
/// it (otherwise), in order of first appearance.
pub open spec fn distinct_where(src: Seq<Seq<char>>, other: Seq<Seq<char>>, inside: bool) -> Seq<Seq<char>>
    decreases src.len(),
{
    if src.len() == 0 {
        Seq::empty()
    } else {
        let r = distinct_where(src.drop_last(), other, inside);
        let x = src.last();
        if other.contains(x) == inside && !r.contains(x) {
            r.push(x)
        } else {
            r
        }
    }
}

/// The paths of a list of directory entries.
pub open spec fn dir_paths(d: Seq<DirectoryView>) -> Seq<Seq<char>> {
    d.map_values(|x: DirectoryView| x.path)
}

/// The events a change from `old` to `new` raises: always a reload; a
/// directory change when some directory was added, removed or kept; a
/// network change when the interface selection or the server port differs.
pub open spec fn change_events_ok(res: Seq<ConfigChangeEvent>, old: AppConfig, new: AppConfig) -> bool {
    let o = dir_paths(old.dirs());
    let n = dir_paths(new.dirs());
    let added = distinct_where(n, o, false);
    let removed = distinct_where(o, n, false);
    let modified = distinct_where(n, o, true);
    let dirs_changed = added.len() > 0 || removed.len() > 0 || modified.len() > 0;
    let net_changed = old.network.interface_selection@ != new.network.interface_selection@
        || old.server.port != new.server.port;
    &&& res.len() == 1 + (if dirs_changed { 1int } else { 0int }) + (if net_changed { 1int } else { 0int })
    &&& res[0] matches ConfigChangeEvent::Reloaded(c) && crate::config::same_settings(c, new)
    &&& dirs_changed ==> (res[1] matches ConfigChangeEvent::DirectoriesChanged { added: a, removed: r, modified: m }
        && texts(a@) == added && texts(r@) == removed && texts(m@) == modified)
    &&& net_changed ==> (res[res.len() - 1] matches ConfigChangeEvent::NetworkChanged {
        old_interface: oi,
        new_interface: ni,
        old_port: op,
        new_port: np,
    } && oi@ == old.network.interface_selection@ && ni@ == new.network.interface_selection@
        && op == old.server.port && np == new.server.port)
}

/// What the directory lists of a change hold: no path twice; the added
/// paths are the new ones absent before, the removed ones the old ones
/// absent now, the kept ones those in both.
pub proof fn law_directory_changes_partition(o: Seq<Seq<char>>, n: Seq<Seq<char>>)
    ensures
        forall|x: Seq<char>| #[trigger] distinct_where(n, o, false).contains(x) <==> (n.contains(x) && !o.contains(x)),
        forall|x: Seq<char>| #[trigger] distinct_where(o, n, false).contains(x) <==> (o.contains(x) && !n.contains(x)),
        forall|x: Seq<char>| #[trigger] distinct_where(n, o, true).contains(x) <==> (n.contains(x) && o.contains(x)),
        distinct_where(n, o, false).no_duplicates(),
        distinct_where(o, n, false).no_duplicates(),
        distinct_where(n, o, true).no_duplicates(),
{
    lemma_distinct_where(n, o, false);
    lemma_distinct_where(o, n, false);
    lemma_distinct_where(n, o, true);
}

proof fn lemma_distinct_where(src: Seq<Seq<char>>, other: Seq<Seq<char>>, inside: bool)
    ensures
        forall|x: Seq<char>| distinct_where(src, other, inside).contains(x) <==> (src.contains(x) && other.contains(x) == inside),
        distinct_where(src, other, inside).no_duplicates(),
    decreases src.len(),
{
    if src.len() > 0 {
        let p = src.drop_last();
        lemma_distinct_where(p, other, inside);
        let r = distinct_where(p, other, inside);
        let x = src.last();
        assert forall|y: Seq<char>| distinct_where(src, other, inside).contains(y) <==> (src.contains(y) && other.contains(y) == inside) by {
            lemma_push_contains(p, x, y);
            lemma_push_contains(r, x, y);
            assert(src =~= p.push(x));
        }
        if other.contains(x) == inside && !r.contains(x) {
            assert forall|i: int, j: int| 0 <= i < j < r.push(x).len() implies r.push(x)[i] != r.push(x)[j] by {
                if j == r.len() {
                    assert(r[i] == r.push(x)[i]);
                }
            }
        }
    }
}

proof fn lemma_push_contains(s: Seq<Seq<char>>, x: Seq<char>, y: Seq<char>)
    ensures
        s.push(x).contains(y) <==> (s.contains(y) || y == x),
{
    if s.push(x).contains(y) && y != x {
        let k = choose|k: int| 0 <= k < s.push(x).len() && s.push(x)[k] == y;
        assert(s[k] == y);
    }
    if s.contains(y) {
        let k = choose|k: int| 0 <= k < s.len() && s[k] == y;
        assert(s.push(x)[k] == y);
    }
    assert(s.push(x)[s.len() as int] == x);
}

fn contains_path(v: &Vec<String>, p: &String) -> (res: bool)
    ensures
        res == texts(v@).contains(p@),
{
    contains_text(v, p)
}

/// The distinct paths of `src` that are (or are not) in `other`.
pub(crate) fn paths_where(src: &Vec<String>, other: &Vec<String>, inside: bool) -> (res: Vec<String>)
    ensures
        texts(res@) == distinct_where(texts(src@), texts(other@), inside),
{
    let mut r: Vec<String> = Vec::new();
    let mut i: usize = 0;
    while i < src.len()
        invariant
            i <= src.len(),
            texts(r@) == distinct_where(texts(src@).subrange(0, i as int), texts(other@), inside),
        decreases src.len() - i,
    {
        proof {
            assert(texts(src@).subrange(0, i + 1).drop_last() =~= texts(src@).subrange(0, i as int));
        }
        let in_other = contains_path(other, &src[i]);
        if in_other == inside && !contains_path(&r, &src[i]) {
            let ghost prev = r@;
            r.push(src[i].clone());
            proof {
                assert(texts(r@) =~= texts(prev).push(src@[i as int]@));
            }
        }
        i = i + 1;
    }
    proof {
        assert(texts(src@).subrange(0, src@.len() as int) =~= texts(src@));
    }
    r
}

impl NetworkInterfaceConfig {
    /// A copy of this selection.
    pub fn copy(&self) -> (res: NetworkInterfaceConfig)
        ensures
            res@ == self@,
    {
        match self {
            NetworkInterfaceConfig::Auto => NetworkInterfaceConfig::Auto,
            NetworkInterfaceConfig::Specific(s) => NetworkInterfaceConfig::Specific(s.clone()),
            NetworkInterfaceConfig::All => NetworkInterfaceConfig::All,
        }
    }
}

/// The events a change from `old_config` to `new_config` raises, in the
/// order they are sent.
pub fn change_notifications(old_config: &AppConfig, new_config: &AppConfig) -> (res: Vec<ConfigChangeEvent>)
    ensures
        change_events_ok(res@, *old_config, *new_config),
{
    let mut events: Vec<ConfigChangeEvent> = Vec::new();
    events.push(ConfigChangeEvent::Reloaded(new_config.copy()));
    let o = old_config.get_monitored_directories();
    let n = new_config.get_monitored_directories();
    let added = paths_where(&n, &o, false);
    let removed = paths_where(&o, &n, false);
    let modified = paths_where(&n, &o, true);
    let dirs_changed = added.len() > 0 || removed.len() > 0 || modified.len() > 0;
    if dirs_changed {
        events.push(ConfigChangeEvent::DirectoriesChanged { added, removed, modified });
    }
    let same_selection = match (&old_config.network.interface_selection, &new_config.network.interface_selection) {
        (NetworkInterfaceConfig::Auto, NetworkInterfaceConfig::Auto) => true,
        (NetworkInterfaceConfig::All, NetworkInterfaceConfig::All) => true,
        (NetworkInterfaceConfig::Specific(a), NetworkInterfaceConfig::Specific(b)) => a.eq(b),
        _ => false,
    };
    if !same_selection || old_config.server.port != new_config.server.port {
        events.push(ConfigChangeEvent::NetworkChanged {
            old_interface: old_config.network.interface_selection.copy(),
            new_interface: new_config.network.interface_selection.copy(),
            old_port: old_config.server.port,
            new_port: new_config.server.port,
        });
    }
    events
}

} // verus!
