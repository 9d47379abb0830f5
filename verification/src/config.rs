//! The application configuration: its sections, the per-directory rules for
//! extensions and exclusions, and how platform defaults are filled in.
use vstd::prelude::*;
use crate::library::{components, same_path_components};
use crate::path::{file_name, file_name_of, join};
use crate::platform::OsType;
use crate::platform_config::{
    add_absent, exclude_patterns_spec, media_extensions_spec, push_absent, PlatformConfig,
};
use crate::text::{
    chars_of, concat3, ends_with, eq_str, has_prefix, has_suffix, owned, starts_with, texts,
};

verus! {

/// Whether deleted files are cleaned up when a configuration file does not
/// say.
pub fn default_cleanup_deleted_files() -> (res: bool)
    ensures
        res,
{
    true
}

/// Server configuration settings.
#[derive(Debug, Clone)]
pub struct ServerConfig {
    pub port: u16,
    pub interface: String,
    pub name: String,
    pub uuid: String,
}

/// Network interface selection configuration.
#[derive(Debug, Clone)]
pub enum NetworkInterfaceConfig {
    Auto,
    Specific(String),
    All,
}

/// Network configuration settings.
#[derive(Debug, Clone)]
pub struct NetworkConfig {
    pub ssdp_port: u16,
    pub interface_selection: NetworkInterfaceConfig,
    pub multicast_ttl: u8,
    pub announce_interval_seconds: u64,
}

/// Configuration for a monitored directory.
#[derive(Debug, Clone)]
pub struct MonitoredDirectoryConfig {
    pub path: String,
    pub recursive: bool,
    pub extensions: Option<Vec<String>>,
    pub exclude_patterns: Option<Vec<String>>,
}

/// Media configuration settings.
#[derive(Debug, Clone)]
pub struct MediaConfig {
    pub directories: Vec<MonitoredDirectoryConfig>,
    pub scan_on_startup: bool,
    pub watch_for_changes: bool,
    pub cleanup_deleted_files: bool,
    pub supported_extensions: Vec<String>,
}

/// Database configuration settings.
#[derive(Debug, Clone)]
pub struct DatabaseConfig {
    pub path: Option<String>,
    pub vacuum_on_startup: bool,
    pub backup_enabled: bool,
}

/// Main application configuration structure.
#[derive(Debug, Clone)]
pub struct AppConfig {
    pub server: ServerConfig,
    pub network: NetworkConfig,
    pub media: MediaConfig,
    pub database: DatabaseConfig,
}

// ---------------------------------------------------------------------------
// Views
// ---------------------------------------------------------------------------

/// The selection of network interfaces, with the name as text.
pub enum InterfaceSelection {
    Auto,
    Specific(Seq<char>),
    All,
}

impl View for NetworkInterfaceConfig {
    type V = InterfaceSelection;

    open spec fn view(&self) -> InterfaceSelection {
        match self {
            NetworkInterfaceConfig::Auto => InterfaceSelection::Auto,
            NetworkInterfaceConfig::Specific(s) => InterfaceSelection::Specific(s@),
            NetworkInterfaceConfig::All => InterfaceSelection::All,
        }
    }
}

/// The view of an optional list of strings.
pub open spec fn opt_texts(o: Option<Vec<String>>) -> Option<Seq<Seq<char>>> {
    match o {
        Some(v) => Some(texts(v@)),
        None => None,
    }
}

/// The content of a monitored-directory entry.
pub struct DirectoryView {
    pub path: Seq<char>,
    pub recursive: bool,
    pub extensions: Option<Seq<Seq<char>>>,
    pub exclude_patterns: Option<Seq<Seq<char>>>,
}

impl View for MonitoredDirectoryConfig {
    type V = DirectoryView;

    open spec fn view(&self) -> DirectoryView {
        DirectoryView {
            path: self.path@,
            recursive: self.recursive,
            extensions: opt_texts(self.extensions),
            exclude_patterns: opt_texts(self.exclude_patterns),
        }
    }
}

/// The views of monitored-directory entries.
pub open spec fn dir_views(s: Seq<MonitoredDirectoryConfig>) -> Seq<DirectoryView> {
    s.map_values(|d: MonitoredDirectoryConfig| d@)
}

// ---------------------------------------------------------------------------
// Platform defaults
// ---------------------------------------------------------------------------

/// The default server name on a platform, given the host name.
pub open spec fn server_name_spec(os: OsType, host: Seq<char>) -> Seq<char> {
    match os {
        OsType::Windows => "OpenDLNA Server ("@ + host + ")"@,
        OsType::MacOS => "OpenDLNA Server on "@ + host,
        OsType::Linux => "OpenDLNA Server - "@ + host,
    }
}

/// The host name of this machine (`hostname::get`), when it can be read:
/// `Ok` with the name when it is valid Unicode, else `Err` with the name
/// whose invalid parts are replaced. It depends on the machine, so nothing
/// is claimed of it.
#[verifier::external_body]
pub(crate) fn host_name() -> (res: Option<Result<String, String>>) {
    match hostname::get() {
        Ok(h) => match h.into_string() {
            Ok(name) => Some(Ok(name)),
            Err(raw) => Some(Err(raw.to_string_lossy().into_owned())),
        },
        Err(_) => None,
    }
}

impl AppConfig {
    /// The default server name on a platform, given the host name (or
    /// `Unknown` when it could not be read).
    pub fn server_name_for(os: OsType, host: Option<String>) -> (res: String)
        ensures
            res@ == server_name_spec(
                os,
                match host {
                    Some(h) => h@,
                    None => "Unknown"@,
                },
            ),
    {
        proof {
            reveal_strlit("");
        }
        let h = match host {
            Some(h) => h,
            None => owned("Unknown"),
        };
        match os {
            OsType::Windows => concat3("OpenDLNA Server (", h.as_str(), ")"),
            OsType::MacOS => concat3("OpenDLNA Server on ", h.as_str(), ""),
            OsType::Linux => concat3("OpenDLNA Server - ", h.as_str(), ""),
        }
    }

    /// Get the platform-appropriate server name, from this machine's host
    /// name.
    pub fn get_platform_server_name(platform_config: &PlatformConfig) -> (res: String)
        ensures
            exists|h: Seq<char>| res@ == server_name_spec(platform_config.os_type, h),
    {
        let host = match host_name() {
            Some(Ok(h)) => Some(h),
            _ => None,
        };
        let r = Self::server_name_for(platform_config.os_type, host);
        proof {
            reveal_strlit("");
        }
        r
    }

    /// The default bind address: every interface.
    pub fn get_platform_default_interface(platform_config: &PlatformConfig) -> (res: String)
        ensures
            res@ == "0.0.0.0"@,
    {
        owned("0.0.0.0")
    }

    /// The default SSDP port, the DLNA standard one.
    pub fn get_platform_default_ssdp_port(platform_config: &PlatformConfig) -> (res: u16)
        ensures
            res == 1900,
    {
        1900
    }

    /// The default multicast time-to-live.
    pub fn get_platform_default_multicast_ttl(platform_config: &PlatformConfig) -> (res: u8)
        ensures
            res == 4,
    {
        4
    }

    /// The default interval between announcements, in seconds.
    pub fn get_platform_default_announce_interval(platform_config: &PlatformConfig) -> (res: u64)
        ensures
            res == 30,
    {
        30
    }
}

// ---------------------------------------------------------------------------
// Directory rules
// ---------------------------------------------------------------------------

/// The position of the first entry for directory `dir`, if any.
pub open spec fn entry_for(dirs: Seq<DirectoryView>, dir: Seq<char>) -> Option<int>
    decreases dirs.len(),
{
    if dirs.len() == 0 {
        None
    } else if dirs[0].path == dir {
        Some(0)
    } else {
        match entry_for(dirs.subrange(1, dirs.len() as int), dir) {
            Some(i) => Some(i + 1),
            None => None,
        }
    }
}

pub(crate) proof fn lemma_entry_for(dirs: Seq<DirectoryView>, dir: Seq<char>)
    ensures
        match entry_for(dirs, dir) {
            Some(i) => 0 <= i < dirs.len() && dirs[i].path == dir
                && forall|j: int| 0 <= j < i ==> (#[trigger] dirs[j]).path != dir,
            None => forall|j: int| 0 <= j < dirs.len() ==> (#[trigger] dirs[j]).path != dir,
        },
    decreases dirs.len(),
{
    if dirs.len() > 0 && dirs[0].path != dir {
        let rest = dirs.subrange(1, dirs.len() as int);
        lemma_entry_for(rest, dir);
        match entry_for(rest, dir) {
            Some(i) => {
                assert forall|j: int| 0 <= j < i + 1 implies (#[trigger] dirs[j]).path != dir by {
                    if j > 0 {
                        assert(dirs[j] == rest[j - 1]);
                    }
                }
            },
            None => {
                assert forall|j: int| 0 <= j < dirs.len() implies (#[trigger] dirs[j]).path != dir by {
                    if j > 0 {
                        assert(dirs[j] == rest[j - 1]);
                    }
                }
            },
        }
    }
}

/// The position of the first entry whose path is the directory `dir`,
/// compared component by component as `Path` equality compares them.
pub open spec fn entry_at(dirs: Seq<DirectoryView>, dir: Seq<char>) -> Option<int>
    decreases dirs.len(),
{
    if dirs.len() == 0 {
        None
    } else if components(dirs[0].path) == components(dir) {
        Some(0)
    } else {
        match entry_at(dirs.subrange(1, dirs.len() as int), dir) {
            Some(i) => Some(i + 1),
            None => None,
        }
    }
}

pub(crate) proof fn lemma_entry_at(dirs: Seq<DirectoryView>, dir: Seq<char>)
    ensures
        match entry_at(dirs, dir) {
            Some(i) => 0 <= i < dirs.len() && components(dirs[i].path) == components(dir)
                && forall|j: int| 0 <= j < i ==> components((#[trigger] dirs[j]).path) != components(dir),
            None => forall|j: int| 0 <= j < dirs.len() ==> components((#[trigger] dirs[j]).path) != components(dir),
        },
    decreases dirs.len(),
{
    if dirs.len() > 0 && components(dirs[0].path) != components(dir) {
        let rest = dirs.subrange(1, dirs.len() as int);
        lemma_entry_at(rest, dir);
        match entry_at(rest, dir) {
            Some(i) => {
                assert forall|j: int| 0 <= j < i + 1 implies components((#[trigger] dirs[j]).path) != components(dir) by {
                    if j > 0 {
                        assert(dirs[j] == rest[j - 1]);
                    }
                }
            },
            None => {
                assert forall|j: int| 0 <= j < dirs.len() implies components((#[trigger] dirs[j]).path) != components(dir) by {
                    if j > 0 {
                        assert(dirs[j] == rest[j - 1]);
                    }
                }
            },
        }
    }
}

/// The position of the first entry whose path is the directory `dir`,
/// component by component.
pub(crate) fn find_entry_at(dirs: &Vec<MonitoredDirectoryConfig>, dir: &str) -> (res: Option<usize>)
    ensures
        match res {
            Some(i) => i < dirs@.len() && entry_at(dir_views(dirs@), dir@) == Some(i as int),
            None => entry_at(dir_views(dirs@), dir@) is None,
        },
{
    let ghost s = dir_views(dirs@);
    proof {
        lemma_entry_at(s, dir@);
    }
    let mut i: usize = 0;
    while i < dirs.len()
        invariant
            i <= dirs.len(),
            s == dir_views(dirs@),
            forall|j: int| 0 <= j < i ==> components((#[trigger] s[j]).path) != components(dir@),
        decreases dirs.len() - i,
    {
        assert(s[i as int].path == dirs@[i as int].path@);
        if same_path_components(dirs[i].path.as_str(), dir) {
            proof {
                lemma_entry_at(s, dir@);
                match entry_at(s, dir@) {
                    Some(k) => {
                        if k < i {
                            assert(components(s[k].path) != components(dir@));
                        }
                        if k > i {
                            assert(components(s[i as int].path) != components(dir@));
                        }
                    },
                    None => {
                        assert(components(s[i as int].path) != components(dir@));
                    },
                }
            }
            return Some(i);
        }
        i = i + 1;
    }
    proof {
        lemma_entry_at(s, dir@);
        match entry_at(s, dir@) {
            Some(k) => {
                assert(components(s[k].path) != components(dir@));
            },
            None => {},
        }
    }
    None
}

/// The position of the first entry for `dir` in a list of entries.
pub(crate) fn find_entry(dirs: &Vec<MonitoredDirectoryConfig>, dir: &str) -> (res: Option<usize>)
    ensures
        match res {
            Some(i) => i < dirs@.len() && entry_for(dir_views(dirs@), dir@) == Some(i as int),
            None => entry_for(dir_views(dirs@), dir@) is None,
        },
{
    let ghost s = dir_views(dirs@);
    proof {
        lemma_entry_for(s, dir@);
    }
    let d = chars_of(dir);
    let mut i: usize = 0;
    while i < dirs.len()
        invariant
            i <= dirs.len(),
            s == dir_views(dirs@),
            d@ == dir@,
            forall|j: int| 0 <= j < i ==> (#[trigger] s[j]).path != dir@,
        decreases dirs.len() - i,
    {
        if crate::text::same_chars(chars_of(dirs[i].path.as_str()).as_slice(), d.as_slice()) {
            proof {
                lemma_entry_for(s, dir@);
                assert(s[i as int].path == dir@);
                match entry_for(s, dir@) {
                    Some(k) => {
                        if k < i {
                            assert(s[k].path != dir@);
                        }
                        if k > i {
                            assert(s[i as int].path != dir@);
                        }
                    },
                    None => {},
                }
            }
            return Some(i);
        }
        assert(s[i as int].path != dir@);
        i = i + 1;
    }
    proof {
        lemma_entry_for(s, dir@);
        match entry_for(s, dir@) {
            Some(k) => {
                assert(s[k].path != dir@);
            },
            None => {},
        }
    }
    None
}

/// Whether a file name matches an exclude pattern: `*.ext` matches names
/// ending in `.ext`, `.*` matches names beginning with a dot, any other
/// pattern matches itself only.
pub open spec fn pattern_matches(name: Seq<char>, pattern: Seq<char>) -> bool {
    if starts_with(pattern, "*."@) {
        ends_with(name, seq!['.'] + pattern.subrange(2, pattern.len() as int))
    } else if pattern == ".*"@ {
        starts_with(name, "."@)
    } else {
        name == pattern
    }
}

/// The exclude patterns that apply to a directory: those of its first entry
/// (by path), or none.
pub open spec fn patterns_for(dirs: Seq<DirectoryView>, dir: Seq<char>) -> Seq<Seq<char>> {
    match entry_at(dirs, dir) {
        Some(i) => match dirs[i].exclude_patterns {
            Some(p) => p,
            None => Seq::empty(),
        },
        None => Seq::empty(),
    }
}

/// Whether a file in a directory is excluded by the directory's patterns.
pub open spec fn excluded(dirs: Seq<DirectoryView>, file: Seq<char>, dir: Seq<char>) -> bool {
    let name = match file_name(file, false) {
        Some(n) => n,
        None => Seq::empty(),
    };
    exists|i: int| 0 <= i < patterns_for(dirs, dir).len() && pattern_matches(name, #[trigger] patterns_for(dirs, dir)[i])
}

fn clone_strings(v: &Vec<String>) -> (res: Vec<String>)
    ensures
        res@ == v@,
{
    let mut r: Vec<String> = Vec::new();
    let mut i: usize = 0;
    while i < v.len()
        invariant
            i <= v.len(),
            r@ =~= v@.subrange(0, i as int),
        decreases v.len() - i,
    {
        r.push(v[i].clone());
        i = i + 1;
    }
    proof {
        assert(v@.subrange(0, v@.len() as int) =~= v@);
    }
    r
}

impl AppConfig {
    /// The views of the monitored-directory entries.
    pub open spec fn dirs(&self) -> Seq<DirectoryView> {
        dir_views(self.media.directories@)
    }

    /// Get the primary media directory: the first monitored one, or the
    /// platform's default.
    pub fn get_primary_media_dir(&self, platform_config: &PlatformConfig) -> (res: String)
        ensures
            res@ == if self.media.directories@.len() > 0 {
                self.media.directories@[0].path@
            } else {
                platform_config.default_media_dir@
            },
    {
        if self.media.directories.len() > 0 {
            self.media.directories[0].path.clone()
        } else {
            platform_config.default_media_dir.clone()
        }
    }

    /// Get the database file path, using the platform default if none is
    /// configured.
    pub fn get_database_path(&self, platform_config: &PlatformConfig) -> (res: String)
        ensures
            res@ == match self.database.path {
                Some(p) => p@,
                None => join(
                    platform_config.database_dir@,
                    "media.db"@,
                    platform_config.os_type == OsType::Windows,
                ),
            },
    {
        match &self.database.path {
            Some(p) => p.clone(),
            None => platform_config.get_database_path(),
        }
    }

    /// Get all monitored directories.
    pub fn get_monitored_directories(&self) -> (res: Vec<String>)
        ensures
            texts(res@) == self.dirs().map_values(|d: DirectoryView| d.path),
    {
        let mut r: Vec<String> = Vec::new();
        let mut i: usize = 0;
        while i < self.media.directories.len()
            invariant
                i <= self.media.directories.len(),
                texts(r@) =~= self.dirs().subrange(0, i as int).map_values(|d: DirectoryView| d.path),
            decreases self.media.directories.len() - i,
        {
            let ghost prev = r@;
            r.push(self.media.directories[i].path.clone());
            proof {
                assert(self.dirs()[i as int] == self.media.directories@[i as int]@);
                assert(texts(r@) =~= texts(prev).push(self.dirs()[i as int].path));
                assert(self.dirs().subrange(0, i + 1).map_values(|d: DirectoryView| d.path)
                    =~= self.dirs().subrange(0, i as int).map_values(|d: DirectoryView| d.path).push(self.dirs()[i as int].path));
            }
            i = i + 1;
        }
        proof {
            assert(self.dirs().subrange(0, self.dirs().len() as int) =~= self.dirs());
        }
        r
    }

    /// Get the supported extensions for a directory: those of its first entry
    /// (the same path, component by component) when the entry lists some,
    /// else the global ones.
    pub fn get_extensions_for_directory(&self, dir_path: &str) -> (res: Vec<String>)
        ensures
            texts(res@) == match entry_at(self.dirs(), dir_path@) {
                Some(i) => match self.dirs()[i].extensions {
                    Some(e) => e,
                    None => texts(self.media.supported_extensions@),
                },
                None => texts(self.media.supported_extensions@),
            },
    {
        match find_entry_at(&self.media.directories, dir_path) {
            Some(i) => {
                proof {
                    assert(self.dirs()[i as int] == self.media.directories@[i as int]@);
                }
                match &self.media.directories[i].extensions {
                    Some(e) => clone_strings(e),
                    None => clone_strings(&self.media.supported_extensions),
                }
            },
            None => clone_strings(&self.media.supported_extensions),
        }
    }

    /// Get the exclude patterns of a directory: those of its first entry (the
    /// same path, component by component), or none.
    pub fn get_exclude_patterns_for_directory(&self, dir_path: &str) -> (res: Vec<String>)
        ensures
            texts(res@) == patterns_for(self.dirs(), dir_path@),
    {
        match find_entry_at(&self.media.directories, dir_path) {
            Some(i) => {
                proof {
                    assert(self.dirs()[i as int] == self.media.directories@[i as int]@);
                }
                match &self.media.directories[i].exclude_patterns {
                    Some(p) => clone_strings(p),
                    None => Vec::new(),
                }
            },
            None => Vec::new(),
        }
    }

    /// Simple pattern matching for exclude patterns.
    pub fn matches_pattern(filename: &str, pattern: &str) -> (res: bool)
        ensures
            res == pattern_matches(filename@, pattern@),
    {
        let p = chars_of(pattern);
        let f = chars_of(filename);
        let star_dot = chars_of("*.");
        if has_prefix(p.as_slice(), star_dot.as_slice()) {
            proof {
                reveal_strlit("*.");
            }
            let mut suffix: Vec<char> = Vec::new();
            suffix.push('.');
            let mut i: usize = 2;
            while i < p.len()
                invariant
                    2 <= i <= p.len(),
                    suffix@ =~= seq!['.'] + p@.subrange(2, i as int),
                decreases p.len() - i,
            {
                suffix.push(p[i]);
                i = i + 1;
            }
            has_suffix(f.as_slice(), suffix.as_slice())
        } else if eq_str(p.as_slice(), ".*") {
            let dot = chars_of(".");
            has_prefix(f.as_slice(), dot.as_slice())
        } else {
            crate::text::same_chars(f.as_slice(), p.as_slice())
        }
    }

    /// Whether a file in a directory is excluded by the directory's
    /// patterns, matched against the file's name.
    pub fn should_exclude_file(&self, file_path: &str, dir_path: &str) -> (res: bool)
        ensures
            res == excluded(self.dirs(), file_path@, dir_path@),
    {
        let patterns = self.get_exclude_patterns_for_directory(dir_path);
        let name = match file_name_of(chars_of(file_path).as_slice(), false) {
            Some(n) => crate::text::string_of(n.as_slice()),
            None => String::new(),
        };
        let mut i: usize = 0;
        while i < patterns.len()
            invariant
                i <= patterns.len(),
                texts(patterns@) == patterns_for(self.dirs(), dir_path@),
                name@ == match file_name(file_path@, false) {
                    Some(n) => n,
                    None => Seq::empty(),
                },
                forall|j: int| 0 <= j < i ==> !pattern_matches(name@, #[trigger] texts(patterns@)[j]),
            decreases patterns.len() - i,
        {
            if Self::matches_pattern(name.as_str(), patterns[i].as_str()) {
                assert(pattern_matches(name@, texts(patterns@)[i as int]));
                return true;
            }
            i = i + 1;
        }
        false
    }
}

// ---------------------------------------------------------------------------
// Applying platform defaults
// ---------------------------------------------------------------------------

/// `v` with each of `extra` that it lacks appended, in order.
pub open spec fn merge_absent(v: Seq<Seq<char>>, extra: Seq<Seq<char>>) -> Seq<Seq<char>>
    decreases extra.len(),
{
    if extra.len() == 0 {
        v
    } else {
        merge_absent(add_absent(v, extra[0]), extra.subrange(1, extra.len() as int))
    }
}

/// The exclude patterns of a directory entry once platform defaults apply:
/// the platform's patterns when it has none, else its own followed by the
/// platform's that it lacks.
pub open spec fn merged_patterns(p: Option<Seq<Seq<char>>>, defaults: Seq<Seq<char>>) -> Seq<Seq<char>> {
    match p {
        Some(q) => if q.len() == 0 {
            defaults
        } else {
            merge_absent(q, defaults)
        },
        None => defaults,
    }
}

/// A server name left for the platform to replace.
pub open spec fn generic_name(n: Seq<char>) -> bool {
    n == "OpenDLNA Server"@ || n.len() == 0
}

/// Appends each of `extra` that `v` lacks.
fn merge_into(v: &mut Vec<String>, extra: &Vec<String>)
    ensures
        texts(final(v)@) == merge_absent(texts(old(v)@), texts(extra@)),
{
    let mut i: usize = 0;
    proof {
        assert(texts(extra@).subrange(0, extra@.len() as int) =~= texts(extra@));
    }
    while i < extra.len()
        invariant
            i <= extra.len(),
            merge_absent(texts(v@), texts(extra@).subrange(i as int, extra@.len() as int))
                == merge_absent(texts(old(v)@), texts(extra@)),
        decreases extra.len() - i,
    {
        let ghost rest = texts(extra@).subrange(i as int, extra@.len() as int);
        proof {
            assert(rest.subrange(1, rest.len() as int) =~= texts(extra@).subrange(i + 1, extra@.len() as int));
            assert(rest[0] == extra@[i as int]@);
        }
        push_absent(v, extra[i].clone());
        i = i + 1;
    }
}

proof fn lemma_add_absent(v: Seq<Seq<char>>, p: Seq<char>)
    ensures
        add_absent(v, p).contains(p),
        add_absent(v, p).len() >= v.len(),
        add_absent(v, p).subrange(0, v.len() as int) == v,
        forall|x: Seq<char>| add_absent(v, p).contains(x) ==> v.contains(x) || x == p,
        v.contains(p) ==> add_absent(v, p) == v,
{
    if !v.contains(p) {
        assert(v.push(p)[v.len() as int] == p);
        assert(v.push(p).subrange(0, v.len() as int) =~= v);
        assert forall|x: Seq<char>| v.push(p).contains(x) implies v.contains(x) || x == p by {
            let k = choose|k: int| 0 <= k < v.push(p).len() && v.push(p)[k] == x;
            if k < v.len() {
                assert(v[k] == x);
            }
        }
    } else {
        assert(v.subrange(0, v.len() as int) =~= v);
    }
}

/// Merging keeps what was there, in place, and adds every default.
pub proof fn lemma_merge_absent_covers(v: Seq<Seq<char>>, extra: Seq<Seq<char>>)
    ensures
        merge_absent(v, extra).len() >= v.len(),
        merge_absent(v, extra).subrange(0, v.len() as int) == v,
        forall|i: int| 0 <= i < extra.len() ==> merge_absent(v, extra).contains(#[trigger] extra[i]),
        forall|x: Seq<char>| merge_absent(v, extra).contains(x) ==> v.contains(x) || extra.contains(x),
    decreases extra.len(),
{
    if extra.len() > 0 {
        let v1 = add_absent(v, extra[0]);
        let rest = extra.subrange(1, extra.len() as int);
        lemma_add_absent(v, extra[0]);
        lemma_merge_absent_covers(v1, rest);
        let m = merge_absent(v, extra);
        assert(m.subrange(0, v.len() as int) =~= m.subrange(0, v1.len() as int).subrange(0, v.len() as int));
        assert(m.contains(extra[0])) by {
            let k = choose|k: int| 0 <= k < v1.len() && v1[k] == extra[0];
            assert(m.subrange(0, v1.len() as int)[k] == extra[0]);
            assert(m[k] == extra[0]);
        }
        assert forall|i: int| 0 <= i < extra.len() implies m.contains(#[trigger] extra[i]) by {
            if i > 0 {
                assert(extra[i] == rest[i - 1]);
            }
        }
        assert forall|x: Seq<char>| m.contains(x) implies v.contains(x) || extra.contains(x) by {
            if v1.contains(x) && !v.contains(x) {
                assert(x == extra[0]);
                assert(extra[0] == x);
            }
            if rest.contains(x) {
                let k = choose|k: int| 0 <= k < rest.len() && rest[k] == x;
                assert(extra[k + 1] == x);
            }
        }
    } else {
        assert(v.subrange(0, v.len() as int) =~= v);
    }
}

/// Merging defaults that are all present already changes nothing.
pub proof fn lemma_merge_absent_noop(v: Seq<Seq<char>>, extra: Seq<Seq<char>>)
    requires
        forall|i: int| 0 <= i < extra.len() ==> v.contains(#[trigger] extra[i]),
    ensures
        merge_absent(v, extra) == v,
    decreases extra.len(),
{
    if extra.len() > 0 {
        lemma_add_absent(v, extra[0]);
        let rest = extra.subrange(1, extra.len() as int);
        assert forall|i: int| 0 <= i < rest.len() implies v.contains(#[trigger] rest[i]) by {
            assert(rest[i] == extra[i + 1]);
        }
        lemma_merge_absent_noop(v, rest);
    }
}

/// After platform defaults apply, a directory keeps its own exclude patterns
/// in front and holds every platform pattern.
pub proof fn law_defaults_cover_patterns(p: Option<Seq<Seq<char>>>, defaults: Seq<Seq<char>>)
    ensures
        forall|i: int| 0 <= i < defaults.len() ==> merged_patterns(p, defaults).contains(#[trigger] defaults[i]),
        p matches Some(q) ==> forall|i: int| 0 <= i < q.len() ==> merged_patterns(p, defaults).contains(#[trigger] q[i]),
{
    match p {
        Some(q) => {
            if q.len() > 0 {
                lemma_merge_absent_covers(q, defaults);
                let m = merged_patterns(p, defaults);
                assert forall|i: int| 0 <= i < q.len() implies m.contains(#[trigger] q[i]) by {
                    assert(m.subrange(0, q.len() as int)[i] == q[i]);
                    assert(m[i] == q[i]);
                }
            } else {
                assert forall|i: int| 0 <= i < defaults.len() implies merged_patterns(p, defaults).contains(#[trigger] defaults[i]) by {
                    assert(merged_patterns(p, defaults)[i] == defaults[i]);
                }
            }
        },
        None => {
            assert forall|i: int| 0 <= i < defaults.len() implies merged_patterns(p, defaults).contains(#[trigger] defaults[i]) by {
                assert(merged_patterns(p, defaults)[i] == defaults[i]);
            }
        },
    }
}

/// Applying the platform's exclude patterns a second time changes nothing.
pub proof fn law_defaults_patterns_idempotent(p: Option<Seq<Seq<char>>>, defaults: Seq<Seq<char>>)
    requires
        defaults.len() > 0,
    ensures
        merged_patterns(Some(merged_patterns(p, defaults)), defaults) == merged_patterns(p, defaults),
{
    law_defaults_cover_patterns(p, defaults);
    let m = merged_patterns(p, defaults);
    assert(m.len() > 0) by {
        assert(m.contains(defaults[0]));
    }
    lemma_merge_absent_noop(m, defaults);
}

/// The supported extensions once platform defaults apply.
pub open spec fn merged_extensions(v: Seq<Seq<char>>, defaults: Seq<Seq<char>>) -> Seq<Seq<char>> {
    if v.len() == 0 {
        defaults
    } else {
        merge_absent(v, defaults)
    }
}

/// After platform defaults apply, every platform extension is supported and
/// the configured ones stay in front; a second application changes nothing.
pub proof fn law_defaults_extensions(v: Seq<Seq<char>>, defaults: Seq<Seq<char>>)
    requires
        defaults.len() > 0,
    ensures
        forall|i: int| 0 <= i < defaults.len() ==> merged_extensions(v, defaults).contains(#[trigger] defaults[i]),
        merged_extensions(v, defaults).subrange(0, v.len() as int) == v,
        merged_extensions(merged_extensions(v, defaults), defaults) == merged_extensions(v, defaults),
{
    let m = merged_extensions(v, defaults);
    if v.len() == 0 {
        assert(m.subrange(0, 0) =~= v);
        assert forall|i: int| 0 <= i < defaults.len() implies m.contains(#[trigger] defaults[i]) by {
            assert(m[i] == defaults[i]);
        }
    } else {
        lemma_merge_absent_covers(v, defaults);
    }
    assert(m.len() > 0) by {
        assert(m.contains(defaults[0]));
    }
    lemma_merge_absent_noop(m, defaults);
}

/// `new` is `old` with the platform's defaults filled in, `name` being the
/// platform's server name.
pub open spec fn defaults_applied(old: AppConfig, new: AppConfig, platform: PlatformConfig, name: Seq<char>) -> bool {
    &&& new.database.path matches Some(p) && p@ == match old.database.path {
        Some(q) => q@,
        None => join(platform.database_dir@, "media.db"@, platform.os_type == OsType::Windows),
    }
    &&& new.dirs().len() == old.dirs().len()
    &&& forall|i: int| 0 <= i < new.dirs().len() ==> {
        &&& (#[trigger] new.dirs()[i]).path == old.dirs()[i].path
        &&& new.dirs()[i].recursive == old.dirs()[i].recursive
        &&& new.dirs()[i].extensions == old.dirs()[i].extensions
        &&& new.dirs()[i].exclude_patterns == Some(
            merged_patterns(old.dirs()[i].exclude_patterns, exclude_patterns_spec(platform.os_type)),
        )
    }
    &&& texts(new.media.supported_extensions@) == merged_extensions(texts(old.media.supported_extensions@), media_extensions_spec(platform.os_type))
    &&& new.server.interface@ == if old.server.interface@.len() == 0 {
        "0.0.0.0"@
    } else {
        old.server.interface@
    }
    &&& new.server.name@ == if generic_name(old.server.name@) {
        name
    } else {
        old.server.name@
    }
    &&& new.server.port == old.server.port
    &&& new.server.uuid@ == old.server.uuid@
    &&& new.network.ssdp_port == old.network.ssdp_port
    &&& new.network.interface_selection@ == old.network.interface_selection@
    &&& new.network.multicast_ttl == old.network.multicast_ttl
    &&& new.network.announce_interval_seconds == old.network.announce_interval_seconds
    &&& new.media.scan_on_startup == old.media.scan_on_startup
    &&& new.media.watch_for_changes == old.media.watch_for_changes
    &&& new.media.cleanup_deleted_files == old.media.cleanup_deleted_files
    &&& new.database.vacuum_on_startup == old.database.vacuum_on_startup
    &&& new.database.backup_enabled == old.database.backup_enabled
}

impl AppConfig {
    /// Fills in platform defaults, with `server_name` as the platform's
    /// server name: the database path when unset, the platform's exclude
    /// patterns on every directory, the platform's media extensions, the
    /// bind address when empty, and the server name when generic.
    pub fn apply_platform_defaults_with(&mut self, platform_config: &PlatformConfig, server_name: String)
        ensures
            defaults_applied(*old(self), *final(self), *platform_config, server_name@),
    {
        if self.database.path.is_none() {
            self.database.path = Some(platform_config.get_database_path());
        }
        let defaults = platform_config.get_default_exclude_patterns();
        let ghost old_dirs = self.dirs();
        let mut dirs: Vec<MonitoredDirectoryConfig> = Vec::new();
        std::mem::swap(&mut dirs, &mut self.media.directories);
        assert(dir_views(dirs@) == old_dirs);
        let mut i: usize = 0;
        while i < dirs.len()
            invariant
                i <= dirs.len(),
                dirs@.len() == old_dirs.len(),
                texts(defaults@) == exclude_patterns_spec(platform_config.os_type),
                forall|j: int| i <= j < dirs@.len() ==> (#[trigger] dirs@[j])@ == old_dirs[j],
                forall|j: int| 0 <= j < i ==> {
                    &&& (#[trigger] dirs@[j])@.path == old_dirs[j].path
                    &&& dirs@[j]@.recursive == old_dirs[j].recursive
                    &&& dirs@[j]@.extensions == old_dirs[j].extensions
                    &&& dirs@[j]@.exclude_patterns == Some(
                        merged_patterns(old_dirs[j].exclude_patterns, exclude_patterns_spec(platform_config.os_type)),
                    )
                },
            decreases dirs.len() - i,
        {
            let ghost snapshot = dirs@;
            let mut entry = dirs.remove(i);
            let ghost before = entry@;
            let use_defaults = match &entry.exclude_patterns {
                None => true,
                Some(p) => p.len() == 0,
            };
            if use_defaults {
                entry.exclude_patterns = Some(clone_strings(&defaults));
            } else {
                let mut patterns = match &entry.exclude_patterns {
                    Some(p) => clone_strings(p),
                    None => Vec::new(),
                };
                merge_into(&mut patterns, &defaults);
                entry.exclude_patterns = Some(patterns);
            }
            assert(entry@.path == before.path);
            dirs.insert(i, entry);
            proof {
                assert forall|j: int| i < j < dirs@.len() implies (#[trigger] dirs@[j])@ == old_dirs[j] by {
                    assert(dirs@[j] == snapshot[j]);
                }
            }
            i = i + 1;
        }
        self.media.directories = dirs;
        if self.media.supported_extensions.len() == 0 {
            self.media.supported_extensions = platform_config.get_default_media_extensions();
        } else {
            let exts = platform_config.get_default_media_extensions();
            merge_into(&mut self.media.supported_extensions, &exts);
        }
        if chars_of(self.server.interface.as_str()).len() == 0 {
            self.server.interface = Self::get_platform_default_interface(platform_config);
        }
        if self.network.multicast_ttl == 4 {
            self.network.multicast_ttl = Self::get_platform_default_multicast_ttl(platform_config);
        }
        if self.network.announce_interval_seconds == 30 {
            self.network.announce_interval_seconds = Self::get_platform_default_announce_interval(platform_config);
        }
        let generic = eq_str(chars_of(self.server.name.as_str()).as_slice(), "OpenDLNA Server")
            || chars_of(self.server.name.as_str()).len() == 0;
        if generic {
            self.server.name = server_name;
        }
    }

    /// Take the settings given on the command line: the port when one is
    /// given, the server name, and the media directory as the only one
    /// monitored, recursively, with the platform's default exclude
    /// patterns.
    pub fn apply_command_line(
        &mut self,
        media_dir: String,
        port: Option<u16>,
        name: String,
        platform_config: &PlatformConfig,
    )
        ensures
            final(self).server.port == match port {
                Some(p) => p,
                None => old(self).server.port,
            },
            final(self).server.name@ == name@,
            final(self).server.interface == old(self).server.interface,
            final(self).server.uuid == old(self).server.uuid,
            final(self).network == old(self).network,
            final(self).database == old(self).database,
            final(self).media.scan_on_startup == old(self).media.scan_on_startup,
            final(self).media.watch_for_changes == old(self).media.watch_for_changes,
            final(self).media.cleanup_deleted_files == old(self).media.cleanup_deleted_files,
            final(self).media.supported_extensions == old(self).media.supported_extensions,
            final(self).dirs() == seq![
                DirectoryView {
                    path: media_dir@,
                    recursive: true,
                    extensions: None,
                    exclude_patterns: Some(exclude_patterns_spec(platform_config.os_type)),
                },
            ],
    {
        if let Some(p) = port {
            self.server.port = p;
        }
        self.server.name = name;
        let patterns = platform_config.get_default_exclude_patterns();
        let d = MonitoredDirectoryConfig { path: media_dir, recursive: true, extensions: None, exclude_patterns: Some(patterns) };
        let mut dirs: Vec<MonitoredDirectoryConfig> = Vec::new();
        dirs.push(d);
        self.media.directories = dirs;
        proof {
            assert(self.dirs() =~= seq![
                DirectoryView {
                    path: media_dir@,
                    recursive: true,
                    extensions: None,
                    exclude_patterns: Some(exclude_patterns_spec(platform_config.os_type)),
                },
            ]);
        }
    }

    /// Fills in platform defaults, naming the server after this machine
    /// when its name is generic (see `apply_platform_defaults_with`).
    pub fn apply_platform_defaults(&mut self, platform_config: &PlatformConfig)
        ensures
            exists|h: Seq<char>| defaults_applied(
                *old(self),
                *final(self),
                *platform_config,
                server_name_spec(platform_config.os_type, h),
            ),
    {
        let name = Self::get_platform_server_name(platform_config);
        self.apply_platform_defaults_with(platform_config, name);
    }
}

/// A lower-case hexadecimal digit.
pub open spec fn is_lower_hex(c: char) -> bool {
    ('0' <= c && c <= '9') || ('a' <= c && c <= 'f')
}

/// The text of a random (version 4) UUID in hyphenated lower-case form.
pub open spec fn v4_uuid_text(u: Seq<char>) -> bool {
    &&& u.len() == 36
    &&& u[8] == '-' && u[13] == '-' && u[18] == '-' && u[23] == '-'
    &&& u[14] == '4'
    &&& (u[19] == '8' || u[19] == '9' || u[19] == 'a' || u[19] == 'b')
    &&& forall|i: int| 0 <= i < 36 && i != 8 && i != 13 && i != 18 && i != 23 ==> is_lower_hex(#[trigger] u[i])
}

/// A new random UUID (`uuid::Uuid::new_v4`) in its hyphenated lower-case
/// text form (`to_string`): 36 characters, dashes at positions 8, 13, 18
/// and 23, the version digit `4` at position 14, a variant digit from `8`
/// to `b` at position 19, hexadecimal digits elsewhere. Which UUID comes
/// out is left open.
#[verifier::external_body]
fn new_uuid() -> (res: String)
    ensures
        v4_uuid_text(res@),
{
    uuid::Uuid::new_v4().to_string()
}

/// The defaults of a fresh configuration on a platform, apart from the
/// server name and identifier.
pub open spec fn fresh_defaults(c: AppConfig, p: PlatformConfig, media_dirs: Seq<Seq<char>>, current_dir: Option<Seq<char>>) -> bool {
    &&& c.server.port == if p.preferred_ports@.len() > 0 { p.preferred_ports@[0] } else { 8080 }
    &&& c.server.interface@ == "0.0.0.0"@
    &&& c.network.ssdp_port == 1900
    &&& c.network.interface_selection@ == InterfaceSelection::Auto
    &&& c.network.multicast_ttl == 4
    &&& c.network.announce_interval_seconds == 30
    &&& c.dirs().len() == 1
    &&& c.dirs()[0].path == if media_dirs.len() > 0 {
        media_dirs[0]
    } else {
        match current_dir {
            Some(d) => d,
            None => p.default_media_dir@,
        }
    }
    &&& c.dirs()[0].recursive
    &&& c.dirs()[0].extensions is None
    &&& c.dirs()[0].exclude_patterns == Some(exclude_patterns_spec(p.os_type))
    &&& c.media.scan_on_startup && c.media.watch_for_changes && c.media.cleanup_deleted_files
    &&& texts(c.media.supported_extensions@) == media_extensions_spec(p.os_type)
    &&& opt_views(c.database.path) == Some(join(p.database_dir@, "media.db"@, p.os_type == OsType::Windows))
    &&& !c.database.vacuum_on_startup
    &&& c.database.backup_enabled
}

impl AppConfig {
    /// The default configuration for a platform, given its media directories
    /// and the working directory (used when there are none): the first media
    /// directory, recursively, with the platform's exclude patterns; the
    /// first preferred port; the standard SSDP settings; the platform's
    /// extensions and database path; a server named after this machine and a
    /// new random identifier.
    pub fn default_for_platform(
        platform_config: &PlatformConfig,
        media_dirs: &Vec<String>,
        current_dir: Option<String>,
    ) -> (res: AppConfig)
        ensures
            fresh_defaults(res, *platform_config, texts(media_dirs@), opt_views(current_dir)),
            exists|h: Seq<char>| res.server.name@ == server_name_spec(platform_config.os_type, h),
            v4_uuid_text(res.server.uuid@),
    {
        let path = if media_dirs.len() > 0 {
            media_dirs[0].clone()
        } else {
            match current_dir {
                Some(d) => d,
                None => platform_config.default_media_dir.clone(),
            }
        };
        let dir = MonitoredDirectoryConfig {
            path,
            recursive: true,
            extensions: None,
            exclude_patterns: Some(platform_config.get_default_exclude_patterns()),
        };
        let mut directories: Vec<MonitoredDirectoryConfig> = Vec::new();
        directories.push(dir);
        let port = if platform_config.preferred_ports.len() > 0 {
            platform_config.preferred_ports[0]
        } else {
            8080
        };
        let res = AppConfig {
            server: ServerConfig {
                port,
                interface: Self::get_platform_default_interface(platform_config),
                name: Self::get_platform_server_name(platform_config),
                uuid: new_uuid(),
            },
            network: NetworkConfig {
                ssdp_port: Self::get_platform_default_ssdp_port(platform_config),
                interface_selection: NetworkInterfaceConfig::Auto,
                multicast_ttl: Self::get_platform_default_multicast_ttl(platform_config),
                announce_interval_seconds: Self::get_platform_default_announce_interval(platform_config),
            },
            media: MediaConfig {
                directories,
                scan_on_startup: true,
                watch_for_changes: true,
                cleanup_deleted_files: true,
                supported_extensions: platform_config.get_default_media_extensions(),
            },
            database: DatabaseConfig {
                path: Some(platform_config.get_database_path()),
                vacuum_on_startup: false,
                backup_enabled: true,
            },
        };
        proof {
            assert(res.dirs()[0] == res.media.directories@[0]@);
        }
        res
    }

    /// The platform's configuration file path.
    pub fn get_platform_config_file_path(platform_config: &PlatformConfig) -> (res: String)
        ensures
            res@ == join(platform_config.config_dir@, "config.toml"@, platform_config.os_type == OsType::Windows),
    {
        platform_config.get_config_file_path()
    }

    /// The platform's cache directory.
    pub fn get_platform_cache_dir(platform_config: &PlatformConfig) -> (res: String)
        ensures
            res@ == platform_config.cache_dir@,
    {
        platform_config.get_cache_dir().clone()
    }

    /// The platform's log file path.
    pub fn get_platform_log_file_path(platform_config: &PlatformConfig) -> (res: String)
        ensures
            res@ == join(platform_config.log_dir@, "vuio.log"@, platform_config.os_type == OsType::Windows),
    {
        platform_config.get_log_file_path()
    }

    /// All potential media directories of the platform.
    pub fn get_platform_media_directories(
        platform_config: &PlatformConfig,
        d: &crate::platform_config::UserDirs,
        existing: &Vec<String>,
    ) -> (res: Vec<String>)
        ensures
            texts(res@) == crate::platform_config::media_directories_spec(
                platform_config.os_type,
                platform_config.default_media_dir@,
                *d,
                existing@,
            ),
    {
        platform_config.get_default_media_directories(d, existing)
    }
}

/// The settings two configurations share.
pub open spec fn same_settings(a: AppConfig, b: AppConfig) -> bool {
    &&& a.server.port == b.server.port
    &&& a.server.interface@ == b.server.interface@
    &&& a.server.name@ == b.server.name@
    &&& a.server.uuid@ == b.server.uuid@
    &&& a.network.ssdp_port == b.network.ssdp_port
    &&& a.network.interface_selection@ == b.network.interface_selection@
    &&& a.network.multicast_ttl == b.network.multicast_ttl
    &&& a.network.announce_interval_seconds == b.network.announce_interval_seconds
    &&& a.dirs() == b.dirs()
    &&& a.media.scan_on_startup == b.media.scan_on_startup
    &&& a.media.watch_for_changes == b.media.watch_for_changes
    &&& a.media.cleanup_deleted_files == b.media.cleanup_deleted_files
    &&& texts(a.media.supported_extensions@) == texts(b.media.supported_extensions@)
    &&& opt_views(a.database.path) == opt_views(b.database.path)
    &&& a.database.vacuum_on_startup == b.database.vacuum_on_startup
    &&& a.database.backup_enabled == b.database.backup_enabled
}

/// The view of an optional string.
pub open spec fn opt_views(o: Option<String>) -> Option<Seq<char>> {
    match o {
        Some(s) => Some(s@),
        None => None,
    }
}

fn copy_opt_strings(o: &Option<Vec<String>>) -> (res: Option<Vec<String>>)
    ensures
        opt_texts(res) == opt_texts(*o),
{
    match o {
        Some(v) => Some(clone_strings(v)),
        None => None,
    }
}

impl MonitoredDirectoryConfig {
    /// A copy of this entry.
    pub fn copy(&self) -> (res: MonitoredDirectoryConfig)
        ensures
            res@ == self@,
    {
        MonitoredDirectoryConfig {
            path: self.path.clone(),
            recursive: self.recursive,
            extensions: copy_opt_strings(&self.extensions),
            exclude_patterns: copy_opt_strings(&self.exclude_patterns),
        }
    }
}

impl AppConfig {
    /// A copy of this configuration.
    pub fn copy(&self) -> (res: AppConfig)
        ensures
            same_settings(*self, res),
    {
        let mut dirs: Vec<MonitoredDirectoryConfig> = Vec::new();
        let mut i: usize = 0;
        while i < self.media.directories.len()
            invariant
                i <= self.media.directories.len(),
                dir_views(dirs@) =~= self.dirs().subrange(0, i as int),
            decreases self.media.directories.len() - i,
        {
            let d = self.media.directories[i].copy();
            let ghost prev = dirs@;
            dirs.push(d);
            proof {
                assert(dir_views(dirs@) =~= dir_views(prev).push(d@));
            }
            i = i + 1;
        }
        proof {
            assert(self.dirs().subrange(0, self.dirs().len() as int) =~= self.dirs());
        }
        let selection = match &self.network.interface_selection {
            NetworkInterfaceConfig::Auto => NetworkInterfaceConfig::Auto,
            NetworkInterfaceConfig::Specific(s) => NetworkInterfaceConfig::Specific(s.clone()),
            NetworkInterfaceConfig::All => NetworkInterfaceConfig::All,
        };
        AppConfig {
            server: ServerConfig {
                port: self.server.port,
                interface: self.server.interface.clone(),
                name: self.server.name.clone(),
                uuid: self.server.uuid.clone(),
            },
            network: NetworkConfig {
                ssdp_port: self.network.ssdp_port,
                interface_selection: selection,
                multicast_ttl: self.network.multicast_ttl,
                announce_interval_seconds: self.network.announce_interval_seconds,
            },
            media: MediaConfig {
                directories: dirs,
                scan_on_startup: self.media.scan_on_startup,
                watch_for_changes: self.media.watch_for_changes,
                cleanup_deleted_files: self.media.cleanup_deleted_files,
                supported_extensions: clone_strings(&self.media.supported_extensions),
            },
            database: DatabaseConfig {
                path: match &self.database.path {
                    Some(p) => Some(p.clone()),
                    None => None,
                },
                vacuum_on_startup: self.database.vacuum_on_startup,
                backup_enabled: self.database.backup_enabled,
            },
        }
    }
}

/// Applying platform defaults a second time (with a server name that is not
/// itself generic) leaves the configuration as the first application made
/// it.
pub proof fn law_apply_defaults_idempotent(
    c0: AppConfig,
    c1: AppConfig,
    c2: AppConfig,
    platform: PlatformConfig,
    name: Seq<char>,
)
    requires
        defaults_applied(c0, c1, platform, name),
        defaults_applied(c1, c2, platform, name),
        !generic_name(name),
    ensures
        same_settings(c1, c2),
{
    let d = exclude_patterns_spec(platform.os_type);
    let e = media_extensions_spec(platform.os_type);
    assert(d.len() > 0);
    assert(e.len() > 0);
    assert forall|i: int| 0 <= i < c2.dirs().len() implies c2.dirs()[i] == c1.dirs()[i] by {
        law_defaults_patterns_idempotent(c0.dirs()[i].exclude_patterns, d);
    }
    assert(c2.dirs() =~= c1.dirs());
    law_defaults_extensions(texts(c0.media.supported_extensions@), e);
    assert(c1.server.name@.len() > 0 && c1.server.name@ != "OpenDLNA Server"@);
    assert(c1.server.interface@.len() > 0) by {
        reveal_strlit("0.0.0.0");
    }
}

/// The names of the clutter a platform leaves in directories: `Thumbs.db`
/// and `desktop.ini` on Windows, `.DS_Store` and `.AppleDouble` on macOS,
/// `lost+found` and `.Trash-` folders on Linux.
pub open spec fn clutter_name(os: OsType, n: Seq<char>) -> bool {
    match os {
        OsType::Windows => n == "Thumbs.db"@ || n == "desktop.ini"@,
        OsType::MacOS => n == ".DS_Store"@ || n == ".AppleDouble"@,
        OsType::Linux => n == "lost+found"@ || starts_with(n, ".Trash-"@),
    }
}

/// Once platform defaults apply, the clutter the platform leaves is
/// excluded in every monitored directory, whatever patterns the directory
/// had before.
pub proof fn law_platform_clutter_is_excluded(
    c0: AppConfig,
    c1: AppConfig,
    platform: PlatformConfig,
    name: Seq<char>,
    i: int,
    file: Seq<char>,
)
    requires
        defaults_applied(c0, c1, platform, name),
        0 <= i < c1.dirs().len(),
        file_name(file, false) matches Some(n) && clutter_name(platform.os_type, n),
    ensures
        excluded(c1.dirs(), file, c1.dirs()[i].path),
{
    let ds = c1.dirs();
    let d = ds[i].path;
    let n = file_name(file, false)->0;
    let os = platform.os_type;
    let defaults = exclude_patterns_spec(os);
    lemma_entry_at(ds, d);
    let j = entry_at(ds, d)->0;
    assert(ds[j].exclude_patterns == Some(merged_patterns(c0.dirs()[j].exclude_patterns, defaults)));
    let pats = patterns_for(ds, d);
    assert(pats == merged_patterns(c0.dirs()[j].exclude_patterns, defaults));
    law_defaults_cover_patterns(c0.dirs()[j].exclude_patterns, defaults);
    reveal_strlit("*.");
    reveal_strlit(".*");
    reveal_strlit(".");
    reveal_strlit("Thumbs.db");
    reveal_strlit("desktop.ini");
    reveal_strlit(".DS_Store");
    reveal_strlit(".AppleDouble");
    reveal_strlit("lost+found");
    reveal_strlit(".Trash-");
    let target: Seq<char> = match os {
        OsType::Windows => n,
        OsType::MacOS => ".*"@,
        OsType::Linux => if n == "lost+found"@ {
            n
        } else {
            ".*"@
        },
    };
    assert(defaults.contains(target));
    let k = choose|k: int| 0 <= k < defaults.len() && defaults[k] == target;
    assert(pats.contains(defaults[k]));
    let m = choose|m: int| 0 <= m < pats.len() && pats[m] == defaults[k];
    if starts_with(target, "*."@) {
        assert(target.subrange(0, 2)[0] == "*."@[0]);
        assert(target[0] == '*');
        assert(false);
    }
    if target == ".*"@ {
        if os == OsType::Linux {
            assert(starts_with(n, ".Trash-"@));
            assert(n.subrange(0, 7)[0] == ".Trash-"@[0]);
        }
        assert(n[0] == '.');
        assert(n.subrange(0, 1) =~= "."@);
        assert(starts_with(n, "."@));
    }
    assert(pattern_matches(n, target));
}

/// Why a configuration is refused for the platform.
#[derive(Debug, Clone)]
pub enum ConfigValidationError {
    /// A monitored directory breaks the platform's path rules.
    InvalidDirectory { path: String, message: String },
    /// A specific network interface is selected by an empty name.
    EmptyInterfaceName,
    /// The server's bind address is neither empty, a wildcard nor an IP address.
    InvalidServerAddress(String),
}

impl ConfigValidationError {
    /// The message shown for this error.
    pub fn message(&self) -> (res: String)
        ensures
            match self {
                ConfigValidationError::InvalidDirectory { path, message } => res@ == "Invalid media directory: "@
                    + path@ + ": "@ + message@,
                ConfigValidationError::EmptyInterfaceName => res@ == "Specific network interface name cannot be empty"@,
                ConfigValidationError::InvalidServerAddress(a) => res@ == "Invalid server interface address: "@ + a@,
            },
    {
        match self {
            ConfigValidationError::InvalidDirectory { path, message } => {
                let mut r = concat3("Invalid media directory: ", path.as_str(), ": ");
                crate::text::push_str(&mut r, message.as_str());
                r
            },
            ConfigValidationError::EmptyInterfaceName => owned("Specific network interface name cannot be empty"),
            ConfigValidationError::InvalidServerAddress(a) => crate::text::concat2(
                "Invalid server interface address: ",
                a.as_str(),
            ),
        }
    }
}

/// The position of the first monitored directory that the platform's path
/// rules refuse.
pub open spec fn first_invalid_directory(os: OsType, d: Seq<DirectoryView>) -> Option<int> {
    if exists|i: int| 0 <= i < d.len() && crate::filesystem::platform_path_problem(os, d[i].path) is Some {
        Some(choose|i: int| 0 <= i < d.len() && crate::filesystem::platform_path_problem(os, d[i].path) is Some
            && forall|j: int| 0 <= j < i ==> crate::filesystem::platform_path_problem(os, d[j].path) is None)
    } else {
        None
    }
}

/// The server's bind address is acceptable: empty, a wildcard, or an IP address.
pub open spec fn acceptable_bind_address(a: Seq<char>) -> bool {
    a.len() == 0 || a == "0.0.0.0"@ || a == "::"@ || crate::ip::parse_ip(a) is Some
}

impl AppConfig {
    /// Check the monitored directories against the platform's path rules;
    /// the first refused one is reported.
    pub fn validate_directories(&self, platform_config: &PlatformConfig) -> (res: Result<(), ConfigValidationError>)
        ensures
            match first_invalid_directory(platform_config.os_type, self.dirs()) {
                None => res is Ok,
                Some(i) => res matches Err(ConfigValidationError::InvalidDirectory { path, message })
                    && path@ == self.dirs()[i].path && message@ == crate::filesystem::invalid_path_text(
                    self.dirs()[i].path,
                    crate::filesystem::platform_path_problem(platform_config.os_type, self.dirs()[i].path).unwrap(),
                ),
            },
    {
        let ghost d = self.dirs();
        let ghost os = platform_config.os_type;
        let mut i: usize = 0;
        while i < self.media.directories.len()
            invariant
                i <= self.media.directories.len(),
                d == self.dirs(),
                d == dir_views(self.media.directories@),
                os == platform_config.os_type,
                forall|j: int| 0 <= j < i ==> crate::filesystem::platform_path_problem(os, d[j].path) is None,
            decreases self.media.directories.len() - i,
        {
            let p = &self.media.directories[i].path;
            proof {
                assert(d[i as int].path == p@);
            }
            match platform_config.validate_path(p.as_str()) {
                Ok(()) => {},
                Err(e) => {
                    proof {
                        let c = first_invalid_directory(os, d)->0;
                        assert(0 <= i < d.len() && crate::filesystem::platform_path_problem(os, d[i as int].path) is Some
                            && forall|j: int| 0 <= j < i ==> crate::filesystem::platform_path_problem(os, d[j].path) is None);
                        let w = choose|k: int| 0 <= k < d.len() && crate::filesystem::platform_path_problem(os, d[k].path) is Some
                            && forall|j: int| 0 <= j < k ==> crate::filesystem::platform_path_problem(os, d[j].path) is None;
                        if w < i {
                            assert(crate::filesystem::platform_path_problem(os, d[w].path) is None);
                        }
                        if w > i {
                            assert(crate::filesystem::platform_path_problem(os, d[i as int].path) is None);
                        }
                    }
                    let message = match e {
                        crate::platform_error::PlatformError::FileSystemAccess(m) => m,
                        _ => String::new(),
                    };
                    return Err(ConfigValidationError::InvalidDirectory { path: p.clone(), message });
                },
            }
            i = i + 1;
        }
        Ok(())
    }

    /// Check the network settings: a specific interface needs a name, and
    /// the server's bind address must be acceptable.
    pub fn validate_network_settings(&self) -> (res: Result<(), ConfigValidationError>)
        ensures
            (self.network.interface_selection@ matches InterfaceSelection::Specific(n) && n.len() == 0)
                ==> res matches Err(ConfigValidationError::EmptyInterfaceName),
            !(self.network.interface_selection@ matches InterfaceSelection::Specific(n) && n.len() == 0)
                ==> (if acceptable_bind_address(self.server.interface@) {
                res is Ok
            } else {
                res matches Err(ConfigValidationError::InvalidServerAddress(a)) && a@ == self.server.interface@
            }),
    {
        match &self.network.interface_selection {
            NetworkInterfaceConfig::Specific(name) => {
                if chars_of(name.as_str()).len() == 0 {
                    return Err(ConfigValidationError::EmptyInterfaceName);
                }
            },
            _ => {},
        }
        let a = chars_of(self.server.interface.as_str());
        if a.len() == 0 || eq_str(a.as_slice(), "0.0.0.0") || eq_str(a.as_slice(), "::") {
            return Ok(());
        }
        match crate::ip::parse_ip_address(a.as_slice()) {
            Some(_) => Ok(()),
            None => Err(ConfigValidationError::InvalidServerAddress(self.server.interface.clone())),
        }
    }
}

} // verus!
