//! Platform-specific configuration: the directories the server uses, its
//! preferred ports, default exclude patterns and media extensions.
use vstd::prelude::*;
use crate::filesystem::{create_platform_filesystem_manager, invalid_path_text, platform_path_problem};
use crate::library::{dir_components, same_dir};
use crate::path::join;
use crate::path::join_path;
use crate::platform::OsType;
use crate::platform_error::PlatformError;
use crate::text::{lookup, lookup_value, owned, texts};

verus! {

/// The user's home directory (`dirs::home_dir`); it depends on the
/// environment, so nothing is claimed of it.
#[verifier::external_body]
fn dirs_home() -> (res: Option<String>) {
    match dirs::home_dir() {
        Some(p) => Some(p.to_string_lossy().into_owned()),
        None => None,
    }
}

/// The user's data directory (`dirs::data_dir`); environment-dependent.
#[verifier::external_body]
fn dirs_data() -> (res: Option<String>) {
    match dirs::data_dir() {
        Some(p) => Some(p.to_string_lossy().into_owned()),
        None => None,
    }
}

/// The user's local data directory (`dirs::data_local_dir`);
/// environment-dependent.
#[verifier::external_body]
fn dirs_data_local() -> (res: Option<String>) {
    match dirs::data_local_dir() {
        Some(p) => Some(p.to_string_lossy().into_owned()),
        None => None,
    }
}

/// The user's configuration directory (`dirs::config_dir`);
/// environment-dependent.
#[verifier::external_body]
fn dirs_config() -> (res: Option<String>) {
    match dirs::config_dir() {
        Some(p) => Some(p.to_string_lossy().into_owned()),
        None => None,
    }
}

/// The user's cache directory (`dirs::cache_dir`); environment-dependent.
#[verifier::external_body]
fn dirs_cache() -> (res: Option<String>) {
    match dirs::cache_dir() {
        Some(p) => Some(p.to_string_lossy().into_owned()),
        None => None,
    }
}

/// The user's videos directory (`dirs::video_dir`); environment-dependent.
#[verifier::external_body]
fn dirs_video() -> (res: Option<String>) {
    match dirs::video_dir() {
        Some(p) => Some(p.to_string_lossy().into_owned()),
        None => None,
    }
}

/// The user's documents directory (`dirs::document_dir`);
/// environment-dependent.
#[verifier::external_body]
fn dirs_document() -> (res: Option<String>) {
    match dirs::document_dir() {
        Some(p) => Some(p.to_string_lossy().into_owned()),
        None => None,
    }
}

/// The user's music directory (`dirs::audio_dir`); environment-dependent.
#[verifier::external_body]
fn dirs_audio() -> (res: Option<String>) {
    match dirs::audio_dir() {
        Some(p) => Some(p.to_string_lossy().into_owned()),
        None => None,
    }
}

/// The user's pictures directory (`dirs::picture_dir`);
/// environment-dependent.
#[verifier::external_body]
fn dirs_picture() -> (res: Option<String>) {
    match dirs::picture_dir() {
        Some(p) => Some(p.to_string_lossy().into_owned()),
        None => None,
    }
}

/// The standard directories of the current user, as the system reports
/// them.
#[derive(Debug, Clone)]
pub struct UserDirs {
    pub home: Option<String>,
    pub data: Option<String>,
    pub data_local: Option<String>,
    pub config: Option<String>,
    pub cache: Option<String>,
    pub video: Option<String>,
    pub document: Option<String>,
    pub audio: Option<String>,
    pub picture: Option<String>,
}

impl UserDirs {
    /// Asks the system for the user's standard directories.
    pub fn detect() -> (res: UserDirs) {
        UserDirs {
            home: dirs_home(),
            data: dirs_data(),
            data_local: dirs_data_local(),
            config: dirs_config(),
            cache: dirs_cache(),
            video: dirs_video(),
            document: dirs_document(),
            audio: dirs_audio(),
            picture: dirs_picture(),
        }
    }
}

/// An optional directory, or a fallback.
pub open spec fn or_default(o: Option<String>, d: Seq<char>) -> Seq<char> {
    match o {
        Some(s) => s@,
        None => d,
    }
}

fn or_default_exec(o: &Option<String>, d: &str) -> (res: String)
    ensures
        res@ == or_default(*o, d@),
{
    match o {
        Some(s) => s.clone(),
        None => owned(d),
    }
}

/// Platform-specific configuration and defaults.
#[derive(Debug, Clone)]
pub struct PlatformConfig {
    pub os_type: OsType,
    pub default_media_dir: String,
    pub config_dir: String,
    pub log_dir: String,
    pub cache_dir: String,
    pub database_dir: String,
    /// Preferred ports for the server, in order of preference.
    pub preferred_ports: Vec<u16>,
    /// Platform-specific metadata, as key/value pairs with distinct keys.
    pub metadata: Vec<(String, String)>,
}

/// The ports the server prefers, in order of preference.
pub open spec fn preferred_ports_spec() -> Seq<u16> {
    seq![8080u16, 8081, 8082, 9090, 9091, 8000, 8001]
}

/// The home directory, or the platform's fallback for it.
pub open spec fn home_of(os: OsType, d: UserDirs) -> Seq<char> {
    or_default(
        d.home,
        match os {
            OsType::Windows => "C:\\"@,
            OsType::MacOS => "/Users/unknown"@,
            OsType::Linux => "/home/unknown"@,
        },
    )
}

/// `p` is one of the paths known to exist.
pub open spec fn exists_in(existing: Seq<String>, p: Seq<char>) -> bool {
    texts(existing).contains(p)
}

/// The default media directory of a platform.
pub open spec fn default_media_dir_spec(os: OsType, d: UserDirs, existing: Seq<String>) -> Seq<char> {
    let home = home_of(os, d);
    match os {
        OsType::Windows => match d.video {
            Some(v) => v@,
            None => match d.document {
                Some(doc) => doc@,
                None => home,
            },
        },
        OsType::MacOS => if exists_in(existing, join(home, "Movies"@, false)) {
            join(home, "Movies"@, false)
        } else {
            home
        },
        OsType::Linux => match d.video {
            Some(v) => v@,
            None => if exists_in(existing, join(home, "Videos"@, false)) {
                join(home, "Videos"@, false)
            } else if exists_in(existing, join(home, "Media"@, false)) {
                join(home, "Media"@, false)
            } else if exists_in(existing, join(home, "Movies"@, false)) {
                join(home, "Movies"@, false)
            } else {
                home
            },
        },
    }
}

/// The configuration of a platform, given the user's directories and the
/// candidate directories known to exist.
pub open spec fn platform_config_spec(os: OsType, d: UserDirs, existing: Seq<String>) -> (
    Seq<char>,
    Seq<char>,
    Seq<char>,
    Seq<char>,
    Seq<char>,
) {
    let home = home_of(os, d);
    match os {
        OsType::Windows => {
            let app_data = or_default(d.data, join(home, "AppData\\Roaming"@, true));
            let local = or_default(d.data_local, join(home, "AppData\\Local"@, true));
            (
                default_media_dir_spec(os, d, existing),
                join(app_data, "VuIO"@, true),
                join(local, "VuIO\\Logs"@, true),
                join(local, "VuIO\\Cache"@, true),
                join(local, "VuIO\\Database"@, true),
            )
        },
        OsType::MacOS => (
            default_media_dir_spec(os, d, existing),
            join(home, "Library/Application Support/VuIO"@, false),
            join(home, "Library/Logs/VuIO"@, false),
            join(home, "Library/Caches/VuIO"@, false),
            join(home, "Library/Application Support/VuIO/Database"@, false),
        ),
        OsType::Linux => {
            let config = or_default(d.config, join(home, ".config"@, false));
            let data = or_default(d.data, join(home, ".local/share"@, false));
            let cache = or_default(d.cache, join(home, ".cache"@, false));
            (
                default_media_dir_spec(os, d, existing),
                join(config, "vuio"@, false),
                join(data, "vuio/logs"@, false),
                join(cache, "vuio"@, false),
                join(data, "vuio/database"@, false),
            )
        },
    }
}

/// The metadata a platform records about itself.
pub open spec fn platform_metadata(os: OsType) -> Seq<(Seq<char>, Seq<char>)> {
    match os {
        OsType::Windows => seq![
            ("platform"@, "windows"@),
            ("case_sensitive"@, "false"@),
            ("path_separator"@, "\\"@),
            ("supports_unc_paths"@, "true"@),
        ],
        OsType::MacOS => seq![
            ("platform"@, "macos"@),
            ("case_sensitive"@, "true"@),
            ("path_separator"@, "/"@),
            ("supports_network_mounts"@, "true"@),
        ],
        OsType::Linux => seq![
            ("platform"@, "linux"@),
            ("case_sensitive"@, "true"@),
            ("path_separator"@, "/"@),
            ("supports_xdg_dirs"@, "true"@),
        ],
    }
}

/// The views of key/value pairs.
pub open spec fn pair_views(m: Seq<(String, String)>) -> Seq<(Seq<char>, Seq<char>)> {
    m.map_values(|p: (String, String)| (p.0@, p.1@))
}

/// `v` with `p` appended unless it already holds it.
pub open spec fn add_absent(v: Seq<Seq<char>>, p: Seq<char>) -> Seq<Seq<char>> {
    if v.contains(p) {
        v
    } else {
        v.push(p)
    }
}

/// Whether `v` holds a directory that is `p` by the platform's path
/// comparison.
pub open spec fn holds_dir(v: Seq<Seq<char>>, p: Seq<char>, windows: bool) -> bool {
    exists|i: int| 0 <= i < v.len() && dir_components(#[trigger] v[i], windows) == dir_components(p, windows)
}

/// `v` with the directory `p` appended unless `v` already holds it.
pub open spec fn add_absent_dir(v: Seq<Seq<char>>, p: Seq<char>, windows: bool) -> Seq<Seq<char>> {
    if holds_dir(v, p, windows) {
        v
    } else {
        v.push(p)
    }
}

/// `v` with each of `cands` that exists and is not yet present appended, in
/// order.
pub open spec fn add_existing(
    v: Seq<Seq<char>>,
    cands: Seq<Seq<char>>,
    existing: Seq<String>,
    windows: bool,
) -> Seq<Seq<char>>
    decreases cands.len(),
{
    if cands.len() == 0 {
        v
    } else {
        let v1 = if exists_in(existing, cands[0]) {
            add_absent_dir(v, cands[0], windows)
        } else {
            v
        };
        add_existing(v1, cands.subrange(1, cands.len() as int), existing, windows)
    }
}

/// `v` with `o` appended when it is present.
pub open spec fn push_some(v: Seq<Seq<char>>, o: Option<String>) -> Seq<Seq<char>> {
    match o {
        Some(s) => v.push(s@),
        None => v,
    }
}

/// The candidate media directories of a platform, in order, and whether the
/// home-based ones are Windows paths.
pub open spec fn media_candidates(os: OsType, d: UserDirs) -> Seq<Seq<char>> {
    let home = home_of(os, d);
    match os {
        OsType::Windows => seq![
            "C:\\Users\\Public\\Videos"@,
            "C:\\Users\\Public\\Music"@,
            "C:\\Users\\Public\\Pictures"@,
            join(home, "Desktop"@, true),
        ],
        OsType::MacOS => seq![
            join(home, "Movies"@, false),
            join(home, "Music"@, false),
            join(home, "Pictures"@, false),
            join(home, "Desktop"@, false),
            "/Users/Shared"@,
        ],
        OsType::Linux => seq![
            join(home, "Desktop"@, false),
            "/media"@,
            "/mnt"@,
            "/home/shared"@,
        ],
    }
}

/// All potential default media directories of a platform.
pub open spec fn media_directories_spec(
    os: OsType,
    default_dir: Seq<char>,
    d: UserDirs,
    existing: Seq<String>,
) -> Seq<Seq<char>> {
    let start = seq![default_dir];
    let with_user = match os {
        OsType::Windows => {
            let v = match d.video {
                Some(x) => if dir_components(x@, true) != dir_components(default_dir, true) {
                    start.push(x@)
                } else {
                    start
                },
                None => start,
            };
            push_some(push_some(v, d.audio), d.picture)
        },
        OsType::MacOS => start,
        OsType::Linux => {
            let v = match d.video {
                Some(x) => add_absent_dir(start, x@, false),
                None => start,
            };
            push_some(push_some(v, d.audio), d.picture)
        },
    };
    add_existing(with_user, media_candidates(os, d), existing, os == OsType::Windows)
}

/// The patterns of file names excluded by default on a platform.
pub open spec fn exclude_patterns_spec(os: OsType) -> Seq<Seq<char>> {
    match os {
        OsType::Windows => seq![
            ".*"@, "Thumbs.db"@, "desktop.ini"@, "*.tmp"@, "*.temp"@, "System Volume Information"@,
        ],
        OsType::MacOS => seq![".*"@, ".DS_Store"@, ".AppleDouble"@, ".Trashes"@, "*.tmp"@, ".fseventsd"@],
        OsType::Linux => seq![".*"@, "*.tmp"@, "*.temp"@, "lost+found"@, ".Trash-*"@],
    }
}

/// The media extensions every platform supports.
pub open spec fn common_extensions() -> Seq<Seq<char>> {
    seq![
        "mp4"@, "mkv"@, "avi"@, "mov"@, "wmv"@, "flv"@, "webm"@, "m4v"@, "mpg"@, "mpeg"@, "3gp"@,
        "ogv"@, "mp3"@, "flac"@, "wav"@, "aac"@, "ogg"@, "wma"@, "m4a"@, "opus"@, "ape"@, "jpg"@,
        "jpeg"@, "png"@, "gif"@, "bmp"@, "webp"@, "tiff"@, "svg"@,
    ]
}

/// The media extensions supported by default on a platform.
pub open spec fn media_extensions_spec(os: OsType) -> Seq<Seq<char>> {
    common_extensions() + match os {
        OsType::Windows => seq!["asf"@, "wm"@, "dvr-ms"@],
        OsType::MacOS => seq!["m4p"@, "m4b"@],
        OsType::Linux => seq!["mka"@, "mks"@],
    }
}

fn push_all(v: &mut Vec<String>, items: &Vec<&'static str>)
    ensures
        texts(final(v)@) == texts(old(v)@) + items@.map_values(|s: &str| s@),
{
    let mut i: usize = 0;
    let ghost start = texts(v@);
    while i < items.len()
        invariant
            i <= items.len(),
            texts(v@) == start + items@.subrange(0, i as int).map_values(|s: &str| s@),
        decreases items.len() - i,
    {
        let ghost prev = v@;
        v.push(owned(items[i]));
        proof {
            assert(texts(v@) =~= texts(prev).push(items@[i as int]@));
            assert(items@.subrange(0, i + 1).map_values(|s: &str| s@) =~= items@.subrange(
                0,
                i as int,
            ).map_values(|s: &str| s@).push(items@[i as int]@));
        }
        i = i + 1;
    }
    proof {
        assert(items@.subrange(0, items@.len() as int) =~= items@);
    }
}

fn contains_string(v: &Vec<String>, p: &String) -> (res: bool)
    ensures
        res == texts(v@).contains(p@),
{
    let mut i: usize = 0;
    while i < v.len()
        invariant
            i <= v.len(),
            forall|j: int| 0 <= j < i ==> (#[trigger] v@[j])@ != p@,
        decreases v.len() - i,
    {
        if v[i].eq(p) {
            assert(texts(v@)[i as int] == p@);
            return true;
        }
        i = i + 1;
    }
    proof {
        if texts(v@).contains(p@) {
            let j = choose|j: int| 0 <= j < texts(v@).len() && texts(v@)[j] == p@;
            assert(v@[j]@ == p@);
        }
    }
    false
}

/// Appends `p` to `v` unless `v` already holds it.
pub fn push_absent(v: &mut Vec<String>, p: String)
    ensures
        texts(final(v)@) == add_absent(texts(old(v)@), p@),
{
    if !contains_string(v, &p) {
        v.push(p);
        proof {
            assert(texts(v@) =~= texts(old(v)@).push(p@));
        }
    }
}

/// Whether `v` holds a directory that is `p` by the platform's path
/// comparison.
fn contains_dir(v: &Vec<String>, p: &String, windows: bool) -> (res: bool)
    ensures
        res == holds_dir(texts(v@), p@, windows),
{
    let mut i: usize = 0;
    while i < v.len()
        invariant
            i <= v.len(),
            forall|j: int|
                0 <= j < i ==> dir_components((#[trigger] v@[j])@, windows) != dir_components(p@, windows),
        decreases v.len() - i,
    {
        if same_dir(v[i].as_str(), p.as_str(), windows) {
            assert(texts(v@)[i as int] == v@[i as int]@);
            return true;
        }
        i = i + 1;
    }
    proof {
        if holds_dir(texts(v@), p@, windows) {
            let j = choose|j: int|
                0 <= j < texts(v@).len() && dir_components(#[trigger] texts(v@)[j], windows) == dir_components(
                    p@,
                    windows,
                );
            assert(texts(v@)[j] == v@[j]@);
        }
    }
    false
}

/// Appends the directory `p` to `v` unless `v` already holds it.
fn push_absent_dir(v: &mut Vec<String>, p: String, windows: bool)
    ensures
        texts(final(v)@) == add_absent_dir(texts(old(v)@), p@, windows),
{
    if !contains_dir(v, &p, windows) {
        v.push(p);
        proof {
            assert(texts(v@) =~= texts(old(v)@).push(p@));
        }
    }
}

impl PlatformConfig {
    /// The candidate directories whose existence decides the configuration:
    /// those of the default media directory, then those of the media
    /// directory list.
    pub open spec fn existence_candidates_spec(os: OsType, d: UserDirs) -> Seq<Seq<char>> {
        let home = home_of(os, d);
        match os {
            OsType::Windows => media_candidates(os, d),
            OsType::MacOS => seq![join(home, "Movies"@, false)] + media_candidates(os, d),
            OsType::Linux => seq![
                join(home, "Videos"@, false),
                join(home, "Media"@, false),
                join(home, "Movies"@, false),
            ] + media_candidates(os, d),
        }
    }

    fn home(os: OsType, d: &UserDirs) -> (res: String)
        ensures
            res@ == home_of(os, *d),
    {
        match os {
            OsType::Windows => or_default_exec(&d.home, "C:\\"),
            OsType::MacOS => or_default_exec(&d.home, "/Users/unknown"),
            OsType::Linux => or_default_exec(&d.home, "/home/unknown"),
        }
    }

    fn media_candidates(os: OsType, d: &UserDirs) -> (res: Vec<String>)
        ensures
            texts(res@) == media_candidates(os, *d),
    {
        let home = Self::home(os, d);
        let mut v: Vec<String> = Vec::new();
        match os {
            OsType::Windows => {
                v.push(owned("C:\\Users\\Public\\Videos"));
                v.push(owned("C:\\Users\\Public\\Music"));
                v.push(owned("C:\\Users\\Public\\Pictures"));
                v.push(join_path(home.as_str(), "Desktop", true));
            },
            OsType::MacOS => {
                v.push(join_path(home.as_str(), "Movies", false));
                v.push(join_path(home.as_str(), "Music", false));
                v.push(join_path(home.as_str(), "Pictures", false));
                v.push(join_path(home.as_str(), "Desktop", false));
                v.push(owned("/Users/Shared"));
            },
            OsType::Linux => {
                v.push(join_path(home.as_str(), "Desktop", false));
                v.push(owned("/media"));
                v.push(owned("/mnt"));
                v.push(owned("/home/shared"));
            },
        }
        proof {
            assert(texts(v@) =~= media_candidates(os, *d));
        }
        v
    }

    /// The directories whose existence the configuration depends on; the
    /// caller finds out which exist and passes those to
    /// `for_current_platform` and `get_default_media_directories`.
    pub fn existence_candidates(os: OsType, d: &UserDirs) -> (res: Vec<String>)
        ensures
            texts(res@) == Self::existence_candidates_spec(os, *d),
    {
        let home = Self::home(os, d);
        let mut v: Vec<String> = Vec::new();
        match os {
            OsType::Windows => {},
            OsType::MacOS => {
                v.push(join_path(home.as_str(), "Movies", false));
            },
            OsType::Linux => {
                v.push(join_path(home.as_str(), "Videos", false));
                v.push(join_path(home.as_str(), "Media", false));
                v.push(join_path(home.as_str(), "Movies", false));
            },
        }
        let mut rest = Self::media_candidates(os, d);
        v.append(&mut rest);
        proof {
            assert(texts(v@) =~= Self::existence_candidates_spec(os, *d));
        }
        v
    }

    fn default_media_dir(os: OsType, d: &UserDirs, existing: &Vec<String>) -> (res: String)
        ensures
            res@ == default_media_dir_spec(os, *d, existing@),
    {
        let home = Self::home(os, d);
        match os {
            OsType::Windows => match &d.video {
                Some(v) => v.clone(),
                None => match &d.document {
                    Some(doc) => doc.clone(),
                    None => home,
                },
            },
            OsType::MacOS => {
                let movies = join_path(home.as_str(), "Movies", false);
                if contains_string(existing, &movies) {
                    movies
                } else {
                    home
                }
            },
            OsType::Linux => match &d.video {
                Some(v) => v.clone(),
                None => {
                    let videos = join_path(home.as_str(), "Videos", false);
                    let media = join_path(home.as_str(), "Media", false);
                    let movies = join_path(home.as_str(), "Movies", false);
                    if contains_string(existing, &videos) {
                        videos
                    } else if contains_string(existing, &media) {
                        media
                    } else if contains_string(existing, &movies) {
                        movies
                    } else {
                        home
                    }
                },
            },
        }
    }

    /// Platform-specific configuration for an operating system, from the
    /// user's directories and the candidate directories that exist.
    pub fn for_current_platform(os: OsType, d: &UserDirs, existing: &Vec<String>) -> (res: PlatformConfig)
        ensures
            res.os_type == os,
            (res.default_media_dir@, res.config_dir@, res.log_dir@, res.cache_dir@, res.database_dir@)
                == platform_config_spec(os, *d, existing@),
            res.preferred_ports@ == preferred_ports_spec(),
            pair_views(res.metadata@) == platform_metadata(os),
    {
        let home = Self::home(os, d);
        let default_media_dir = Self::default_media_dir(os, d, existing);
        let mut metadata: Vec<(String, String)> = Vec::new();
        let (config_dir, log_dir, cache_dir, database_dir) = match os {
            OsType::Windows => {
                let app_data = match &d.data {
                    Some(x) => x.clone(),
                    None => join_path(home.as_str(), "AppData\\Roaming", true),
                };
                let local = match &d.data_local {
                    Some(x) => x.clone(),
                    None => join_path(home.as_str(), "AppData\\Local", true),
                };
                metadata.push((owned("platform"), owned("windows")));
                metadata.push((owned("case_sensitive"), owned("false")));
                metadata.push((owned("path_separator"), owned("\\")));
                metadata.push((owned("supports_unc_paths"), owned("true")));
                (
                    join_path(app_data.as_str(), "VuIO", true),
                    join_path(local.as_str(), "VuIO\\Logs", true),
                    join_path(local.as_str(), "VuIO\\Cache", true),
                    join_path(local.as_str(), "VuIO\\Database", true),
                )
            },
            OsType::MacOS => {
                metadata.push((owned("platform"), owned("macos")));
                metadata.push((owned("case_sensitive"), owned("true")));
                metadata.push((owned("path_separator"), owned("/")));
                metadata.push((owned("supports_network_mounts"), owned("true")));
                (
                    join_path(home.as_str(), "Library/Application Support/VuIO", false),
                    join_path(home.as_str(), "Library/Logs/VuIO", false),
                    join_path(home.as_str(), "Library/Caches/VuIO", false),
                    join_path(home.as_str(), "Library/Application Support/VuIO/Database", false),
                )
            },
            OsType::Linux => {
                let config = match &d.config {
                    Some(x) => x.clone(),
                    None => join_path(home.as_str(), ".config", false),
                };
                let data = match &d.data {
                    Some(x) => x.clone(),
                    None => join_path(home.as_str(), ".local/share", false),
                };
                let cache = match &d.cache {
                    Some(x) => x.clone(),
                    None => join_path(home.as_str(), ".cache", false),
                };
                metadata.push((owned("platform"), owned("linux")));
                metadata.push((owned("case_sensitive"), owned("true")));
                metadata.push((owned("path_separator"), owned("/")));
                metadata.push((owned("supports_xdg_dirs"), owned("true")));
                (
                    join_path(config.as_str(), "vuio", false),
                    join_path(data.as_str(), "vuio/logs", false),
                    join_path(cache.as_str(), "vuio", false),
                    join_path(data.as_str(), "vuio/database", false),
                )
            },
        };
        let preferred_ports: Vec<u16> = vec![8080, 8081, 8082, 9090, 9091, 8000, 8001];
        proof {
            assert(preferred_ports@ =~= preferred_ports_spec());
            assert(pair_views(metadata@) =~= platform_metadata(os));
        }
        PlatformConfig {
            os_type: os,
            default_media_dir,
            config_dir,
            log_dir,
            cache_dir,
            database_dir,
            preferred_ports,
            metadata,
        }
    }

    /// All potential default media directories: the default one first, the
    /// user's media folders, then the common media locations that exist.
    pub fn get_default_media_directories(&self, d: &UserDirs, existing: &Vec<String>) -> (res: Vec<String>)
        ensures
            texts(res@) == media_directories_spec(self.os_type, self.default_media_dir@, *d, existing@),
    {
        let mut v: Vec<String> = Vec::new();
        v.push(self.default_media_dir.clone());
        proof {
            assert(texts(v@) =~= seq![self.default_media_dir@]);
        }
        match self.os_type {
            OsType::Windows => {
                match &d.video {
                    Some(x) => {
                        if !same_dir(x.as_str(), self.default_media_dir.as_str(), true) {
                            v.push(x.clone());
                        }
                    },
                    None => {},
                }
                match &d.audio {
                    Some(x) => {
                        v.push(x.clone());
                    },
                    None => {},
                }
                match &d.picture {
                    Some(x) => {
                        v.push(x.clone());
                    },
                    None => {},
                }
            },
            OsType::MacOS => {},
            OsType::Linux => {
                match &d.video {
                    Some(x) => {
                        push_absent_dir(&mut v, x.clone(), false);
                    },
                    None => {},
                }
                match &d.audio {
                    Some(x) => {
                        v.push(x.clone());
                    },
                    None => {},
                }
                match &d.picture {
                    Some(x) => {
                        v.push(x.clone());
                    },
                    None => {},
                }
            },
        }
        let ghost with_user = texts(v@);
        proof {
            assert(with_user =~= {
                let start = seq![self.default_media_dir@];
                match self.os_type {
                    OsType::Windows => {
                        let v0 = match d.video {
                            Some(x) => if dir_components(x@, true) != dir_components(self.default_media_dir@, true) {
                                start.push(x@)
                            } else {
                                start
                            },
                            None => start,
                        };
                        push_some(push_some(v0, d.audio), d.picture)
                    },
                    OsType::MacOS => start,
                    OsType::Linux => {
                        let v0 = match d.video {
                            Some(x) => add_absent_dir(start, x@, false),
                            None => start,
                        };
                        push_some(push_some(v0, d.audio), d.picture)
                    },
                }
            });
        }
        let cands = Self::media_candidates(self.os_type, d);
        let windows = self.os_type == OsType::Windows;
        let mut i: usize = 0;
        proof {
            assert(texts(cands@).subrange(0, cands@.len() as int) =~= texts(cands@));
        }
        while i < cands.len()
            invariant
                i <= cands.len(),
                add_existing(texts(v@), texts(cands@).subrange(i as int, cands@.len() as int), existing@, windows)
                    == add_existing(with_user, texts(cands@), existing@, windows),
            decreases cands.len() - i,
        {
            let ghost rest = texts(cands@).subrange(i as int, cands@.len() as int);
            proof {
                assert(rest.subrange(1, rest.len() as int) =~= texts(cands@).subrange(
                    i + 1,
                    cands@.len() as int,
                ));
                assert(rest[0] == cands@[i as int]@);
            }
            if contains_string(existing, &cands[i]) {
                push_absent_dir(&mut v, cands[i].clone(), windows);
            }
            i = i + 1;
        }
        v
    }

    /// Get the configuration file path.
    pub fn get_config_file_path(&self) -> (res: String)
        ensures
            res@ == join(self.config_dir@, "config.toml"@, self.os_type == OsType::Windows),
    {
        join_path(self.config_dir.as_str(), "config.toml", self.os_type == OsType::Windows)
    }

    /// Get the database file path.
    pub fn get_database_path(&self) -> (res: String)
        ensures
            res@ == join(self.database_dir@, "media.db"@, self.os_type == OsType::Windows),
    {
        join_path(self.database_dir.as_str(), "media.db", self.os_type == OsType::Windows)
    }

    /// Get the log file path.
    pub fn get_log_file_path(&self) -> (res: String)
        ensures
            res@ == join(self.log_dir@, "vuio.log"@, self.os_type == OsType::Windows),
    {
        join_path(self.log_dir.as_str(), "vuio.log", self.os_type == OsType::Windows)
    }

    /// Get the cache directory path.
    pub fn get_cache_dir(&self) -> (res: &String)
        ensures
            res == &self.cache_dir,
    {
        &self.cache_dir
    }

    /// Get a platform-specific metadata value.
    pub fn get_metadata(&self, key: &str) -> (res: Option<&String>)
        ensures
            match res {
                Some(v) => lookup(self.metadata@, key@) == Some(v@),
                None => lookup(self.metadata@, key@) is None,
            },
    {
        lookup_value(&self.metadata, key)
    }

    /// Whether the metadata records a case-sensitive file system.
    pub fn is_case_sensitive(&self) -> (res: bool)
        ensures
            res == (lookup(self.metadata@, "case_sensitive"@) == Some("true"@)),
    {
        match lookup_value(&self.metadata, "case_sensitive") {
            Some(v) => crate::text::eq_str(crate::text::chars_of(v.as_str()).as_slice(), "true"),
            None => false,
        }
    }

    /// The platform's path separator, `/` when none is recorded.
    pub fn get_path_separator(&self) -> (res: &str)
        ensures
            res@ == match lookup(self.metadata@, "path_separator"@) {
                Some(s) => s,
                None => "/"@,
            },
    {
        match lookup_value(&self.metadata, "path_separator") {
            Some(v) => v.as_str(),
            None => "/",
        }
    }

    /// Whether the platform supports UNC paths or network mounts.
    pub fn supports_network_paths(&self) -> (res: bool)
        ensures
            res == match lookup(self.metadata@, "supports_unc_paths"@) {
                Some(v) => v == "true"@,
                None => lookup(self.metadata@, "supports_network_mounts"@) == Some("true"@),
            },
    {
        let found = match lookup_value(&self.metadata, "supports_unc_paths") {
            Some(v) => Some(v),
            None => lookup_value(&self.metadata, "supports_network_mounts"),
        };
        match found {
            Some(v) => crate::text::eq_str(crate::text::chars_of(v.as_str()).as_slice(), "true"),
            None => false,
        }
    }

    /// Get the platform's default exclude patterns.
    pub fn get_default_exclude_patterns(&self) -> (res: Vec<String>)
        ensures
            texts(res@) == exclude_patterns_spec(self.os_type),
    {
        let mut v: Vec<String> = Vec::new();
        let items: Vec<&'static str> = match self.os_type {
            OsType::Windows => vec![".*", "Thumbs.db", "desktop.ini", "*.tmp", "*.temp", "System Volume Information"],
            OsType::MacOS => vec![".*", ".DS_Store", ".AppleDouble", ".Trashes", "*.tmp", ".fseventsd"],
            OsType::Linux => vec![".*", "*.tmp", "*.temp", "lost+found", ".Trash-*"],
        };
        push_all(&mut v, &items);
        proof {
            assert(texts(v@) =~= exclude_patterns_spec(self.os_type));
        }
        v
    }

    /// Get the platform's supported media file extensions.
    pub fn get_default_media_extensions(&self) -> (res: Vec<String>)
        ensures
            texts(res@) == media_extensions_spec(self.os_type),
    {
        let mut v: Vec<String> = Vec::new();
        let common: Vec<&'static str> = vec![
            "mp4", "mkv", "avi", "mov", "wmv", "flv", "webm", "m4v", "mpg", "mpeg", "3gp", "ogv",
            "mp3", "flac", "wav", "aac", "ogg", "wma", "m4a", "opus", "ape", "jpg", "jpeg", "png",
            "gif", "bmp", "webp", "tiff", "svg",
        ];
        push_all(&mut v, &common);
        let extra: Vec<&'static str> = match self.os_type {
            OsType::Windows => vec!["asf", "wm", "dvr-ms"],
            OsType::MacOS => vec!["m4p", "m4b"],
            OsType::Linux => vec!["mka", "mks"],
        };
        push_all(&mut v, &extra);
        proof {
            assert(texts(v@) =~= media_extensions_spec(self.os_type));
        }
        v
    }

    /// Validate a path by the platform's file-system rules, reporting a
    /// refusal as a file-system access error with the explanation.
    pub fn validate_path(&self, path: &str) -> (res: Result<(), PlatformError>)
        ensures
            match platform_path_problem(self.os_type, path@) {
                None => res is Ok,
                Some(reason) => res matches Err(PlatformError::FileSystemAccess(m))
                    && m@ == invalid_path_text(path@, reason),
            },
    {
        let fs = create_platform_filesystem_manager(self.os_type);
        match fs.validate_path(path) {
            Ok(()) => Ok(()),
            Err(e) => Err(PlatformError::FileSystemAccess(e.user_message())),
        }
    }
}

} // verus!
