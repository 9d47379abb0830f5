//! The path rules of Windows file systems: UNC paths, drive letters,
//! separator normalization, reserved names and invalid characters.
use vstd::prelude::*;
use crate::filesystem::{
    common_path_problem, extension_listed, same_name, BaseFileSystemManager, FileSystemError, FileSystemManager,
};
use crate::path::{extension, extension_of, file_name, file_name_of};
use crate::text::{
    chars_of, concat2, eq_str, has_prefix, lower_chars, lowercase_of, owned, push_char,
    split, split_on, starts_with, string_of, texts, upper_chars, uppercase_of, utf8_len,
    utf8_len_exceeds,
};

verus! {

/// `p` is a UNC path (`\\server\share...`).
pub open spec fn is_unc(p: Seq<char>) -> bool {
    starts_with(p, "\\\\"@) && p.len() > 2
}

/// `p` begins with a drive letter and a backslash (`C:\...`).
pub open spec fn has_drive(p: Seq<char>) -> bool {
    p.len() >= 3 && p[1] == ':' && p[2] == '\\'
}

/// The first character of the upper-case form of `c`, or `c` itself.
pub open spec fn upper_first(c: char) -> char {
    let u = uppercase_of(seq![c]);
    if u.len() > 0 {
        u[0]
    } else {
        c
    }
}

/// `p` with every `/` replaced by `\`.
pub open spec fn backslashed(p: Seq<char>) -> Seq<char> {
    p.map_values(|c: char| if c == '/' { '\\' } else { c })
}

/// The normalized form of a Windows path: backslash separators and, for a
/// drive-letter path (a drive and a colon followed by either separator),
/// an upper-case drive letter.
pub open spec fn normalized_windows(p: Seq<char>) -> Seq<char> {
    let n = backslashed(p);
    if is_unc(p) {
        n
    } else if has_drive(n) {
        n.update(0, upper_first(p[0]))
    } else {
        n
    }
}

/// The characters refused in Windows paths, in the order they are checked.
pub open spec fn invalid_windows_chars() -> Seq<char> {
    seq!['<', '>', ':', '"', '|', '?', '*']
}

/// `c` is refused in path `p`: every listed character always is, except a
/// colon, which UNC and drive-letter paths may hold.
pub open spec fn refused_char(p: Seq<char>, c: char) -> bool {
    p.contains(c) && (c != ':' || (!is_unc(p) && !has_drive(p)))
}

/// The names Windows reserves for devices.
pub open spec fn reserved_names() -> Seq<Seq<char>> {
    seq![
        "CON"@, "PRN"@, "AUX"@, "NUL"@,
        "COM1"@, "COM2"@, "COM3"@, "COM4"@, "COM5"@, "COM6"@, "COM7"@, "COM8"@, "COM9"@,
        "LPT1"@, "LPT2"@, "LPT3"@, "LPT4"@, "LPT5"@, "LPT6"@, "LPT7"@, "LPT8"@, "LPT9"@,
    ]
}

/// The upper-cased file name of `p` up to its first dot, if it has a name.
pub open spec fn device_stem(p: Seq<char>) -> Option<Seq<char>> {
    match file_name(p, true) {
        Some(n) => Some(split(uppercase_of(n), '.')[0]),
        None => None,
    }
}

/// The reason a path is refused on Windows, if it is.
pub open spec fn windows_path_problem(p: Seq<char>) -> Option<Seq<char>> {
    match common_path_problem(p) {
        Some(r) => Some(r),
        None => {
            if exists|i: int| 0 <= i < 7 && refused_char(p, #[trigger] invalid_windows_chars()[i]) {
                let i = choose|i: int| 0 <= i < 7 && refused_char(p, #[trigger] invalid_windows_chars()[i])
                    && forall|j: int| 0 <= j < i ==> !refused_char(p, #[trigger] invalid_windows_chars()[j]);
                Some("Path contains invalid Windows character: "@ + seq![invalid_windows_chars()[i]])
            } else if device_stem(p) is Some && reserved_names().contains(device_stem(p).unwrap()) {
                Some("Path contains reserved Windows name: "@ + device_stem(p).unwrap())
            } else if utf8_len(p) > 260 && !starts_with(p, "\\\\?\\"@) {
                Some("Path exceeds Windows MAX_PATH limit (260 characters)"@)
            } else {
                None
            }
        },
    }
}

/// The file names Windows keeps hidden (compared in lower case).
pub open spec fn hidden_names() -> Seq<Seq<char>> {
    seq!["thumbs.db"@, "desktop.ini"@, ".ds_store"@, "hiberfil.sys"@, "pagefile.sys"@]
}

/// Whether a file is treated as hidden on Windows.
pub open spec fn hidden_on_windows(p: Seq<char>) -> bool {
    match file_name(p, true) {
        Some(n) => hidden_names().contains(lowercase_of(n)) || starts_with(n, "."@),
        None => false,
    }
}

/// The extensions of executable files on Windows (compared in lower case).
pub open spec fn executable_extensions() -> Seq<Seq<char>> {
    seq!["exe"@, "bat"@, "cmd"@, "com"@, "scr"@, "msi"@]
}

/// Whether the path names an executable file on Windows.
pub open spec fn executable_on_windows(p: Seq<char>) -> bool {
    match extension(p, true) {
        Some(e) => executable_extensions().contains(lowercase_of(e)),
        None => false,
    }
}

/// Whether `s` is one of the strings of `list`.
fn member_of(s: &[char], list: &Vec<&'static str>) -> (res: bool)
    ensures
        res == exists|i: int| 0 <= i < list@.len() && s@ == (#[trigger] list@[i])@,
{
    let mut i: usize = 0;
    while i < list.len()
        invariant
            i <= list.len(),
            forall|j: int| 0 <= j < i ==> s@ != (#[trigger] list@[j])@,
        decreases list.len() - i,
    {
        if eq_str(s, list[i]) {
            return true;
        }
        i = i + 1;
    }
    false
}

/// Windows-specific file system manager.
pub struct WindowsFileSystemManager {
    pub base: BaseFileSystemManager,
}

impl WindowsFileSystemManager {
    /// Create a new Windows file system manager, whose comparisons ignore
    /// case.
    pub fn new() -> (res: Self)
        ensures
            !res.base.case_sensitive,
    {
        WindowsFileSystemManager { base: BaseFileSystemManager::new(false) }
    }

    /// Check if a path is a UNC path (`\\server\share\path`).
    pub fn is_unc_path(&self, path: &str) -> (res: bool)
        ensures
            res == is_unc(path@),
    {
        let p = chars_of(path);
        let pre = chars_of("\\\\");
        proof {
            reveal_strlit("\\\\");
        }
        has_prefix(p.as_slice(), pre.as_slice()) && p.len() > 2
    }

    /// Check if a path contains a drive letter (`C:\path`).
    pub fn has_drive_letter(&self, path: &str) -> (res: bool)
        ensures
            res == has_drive(path@),
    {
        let p = chars_of(path);
        p.len() >= 3 && p[1] == ':' && p[2] == '\\'
    }

    /// Normalize Windows path separators and handle drive letters.
    pub fn normalize_windows_path(&self, path: &str) -> (res: String)
        ensures
            res@ == normalized_windows(path@),
    {
        let p = chars_of(path);
        let mut n: Vec<char> = Vec::new();
        let mut i: usize = 0;
        while i < p.len()
            invariant
                i <= p.len(),
                p@ == path@,
                n@ =~= backslashed(p@.subrange(0, i as int)),
            decreases p.len() - i,
        {
            let c = p[i];
            n.push(if c == '/' { '\\' } else { c });
            i = i + 1;
        }
        proof {
            assert(p@.subrange(0, p@.len() as int) =~= p@);
        }
        if self.is_unc_path(path) {
            return string_of(n.as_slice());
        }
        if n.len() >= 3 && n[1] == ':' && n[2] == '\\' {
            let mut one: Vec<char> = Vec::new();
            one.push(p[0]);
            let up = upper_chars(one.as_slice());
            proof {
                assert(one@ =~= seq![p@[0]]);
            }
            let first = if up.len() > 0 { up[0] } else { p[0] };
            n.set(0, first);
            return string_of(n.as_slice());
        }
        string_of(n.as_slice())
    }

    /// Validate Windows-specific path constraints.
    pub fn validate_windows_path(&self, path: &str) -> (res: Result<(), FileSystemError>)
        ensures
            match windows_path_problem(path@) {
                None => res is Ok,
                Some(reason) => res matches Err(FileSystemError::InvalidPath { path: p, reason: r })
                    && p@ == path@ && r@ == reason,
            },
    {
        match self.base.validate_path_common(path) {
            Err(e) => {
                return Err(e);
            },
            Ok(()) => {},
        }
        let p = chars_of(path);
        let unc = self.is_unc_path(path);
        let drive = self.has_drive_letter(path);
        let invalid: Vec<char> = vec!['<', '>', ':', '"', '|', '?', '*'];
        proof {
            assert(invalid@ =~= invalid_windows_chars());
        }
        let mut k: usize = 0;
        while k < 7
            invariant
                k <= 7,
                p@ == path@,
                invalid@ == invalid_windows_chars(),
                unc == is_unc(path@),
                drive == has_drive(path@),
                common_path_problem(path@) is None,
                forall|j: int| 0 <= j < k ==> !refused_char(path@, #[trigger] invalid_windows_chars()[j]),
            decreases 7 - k,
        {
            let c = invalid[k];
            let mut found = false;
            let mut i: usize = 0;
            while i < p.len()
                invariant
                    i <= p.len(),
                    found == exists|j: int| 0 <= j < i && p@[j] == c,
                decreases p.len() - i,
            {
                if p[i] == c {
                    found = true;
                }
                i = i + 1;
            }
            assert(found == p@.contains(c));
            if found && (c != ':' || (!unc && !drive)) {
                assert(refused_char(path@, invalid_windows_chars()[k as int]));
                let mut reason = owned("Path contains invalid Windows character: ");
                push_char(&mut reason, c);
                assert(reason@ =~= "Path contains invalid Windows character: "@ + seq![c]);
                proof {
                    assert(0 <= k < 7 && refused_char(path@, invalid_windows_chars()[k as int])
                        && forall|j: int| 0 <= j < k ==> !refused_char(path@, #[trigger] invalid_windows_chars()[j]));
                    let i = choose|i: int| 0 <= i < 7 && refused_char(path@, #[trigger] invalid_windows_chars()[i])
                        && forall|j: int| 0 <= j < i ==> !refused_char(path@, #[trigger] invalid_windows_chars()[j]);
                    if i < k {
                    } else if i > k {
                        assert(!refused_char(path@, invalid_windows_chars()[k as int]));
                    }
                    assert(i == k);
                    assert(common_path_problem(path@) is None);
                    assert(invalid_windows_chars()[i] == c);
                    assert(windows_path_problem(path@) == Some("Path contains invalid Windows character: "@ + seq![c]));
                }
                return Err(FileSystemError::InvalidPath { path: owned(path), reason });
            }
            k = k + 1;
        }
        proof {
            if exists|i: int| 0 <= i < 7 && refused_char(path@, #[trigger] invalid_windows_chars()[i]) {
                let i = choose|i: int| 0 <= i < 7 && refused_char(path@, #[trigger] invalid_windows_chars()[i]);
                assert(!refused_char(path@, invalid_windows_chars()[i]));
            }
        }
        match file_name_of(p.as_slice(), true) {
            Some(name) => {
                let upper = upper_chars(name.as_slice());
                let parts = split_on(upper.as_slice(), '.');
                proof {
                    assert(split(uppercase_of(name@), '.').len() > 0);
                }
                let stem = &parts[0];
                let reserved: Vec<&'static str> = vec![
                    "CON", "PRN", "AUX", "NUL", "COM1", "COM2", "COM3", "COM4", "COM5", "COM6",
                    "COM7", "COM8", "COM9", "LPT1", "LPT2", "LPT3", "LPT4", "LPT5", "LPT6", "LPT7",
                    "LPT8", "LPT9",
                ];
                let hit = member_of(stem.as_slice(), &reserved);
                proof {
                    assert(device_stem(path@) == Some(stem@));
                    assert(hit == reserved_names().contains(stem@)) by {
                        if hit {
                            let i = choose|i: int| 0 <= i < reserved@.len() && stem@ == (#[trigger] reserved@[i])@;
                            assert(reserved_names()[i] == reserved@[i]@);
                        }
                        if reserved_names().contains(stem@) {
                            let i = choose|i: int| 0 <= i < reserved_names().len() && reserved_names()[i] == stem@;
                            assert(reserved_names()[i] == reserved@[i]@);
                        }
                    }
                }
                if hit {
                    let s = string_of(stem.as_slice());
                    return Err(FileSystemError::InvalidPath {
                        path: owned(path),
                        reason: concat2("Path contains reserved Windows name: ", s.as_str()),
                    });
                }
            },
            None => {},
        }
        let long_prefix = chars_of("\\\\?\\");
        if utf8_len_exceeds(p.as_slice(), 260) && !has_prefix(p.as_slice(), long_prefix.as_slice()) {
            return Err(FileSystemError::InvalidPath {
                path: owned(path),
                reason: owned("Path exceeds Windows MAX_PATH limit (260 characters)"),
            });
        }
        Ok(())
    }

    /// Check if a file is hidden on Windows: one of the system files, or a
    /// name that begins with a dot.
    pub fn is_hidden_windows(&self, path: &str) -> (res: bool)
        ensures
            res == hidden_on_windows(path@),
    {
        match file_name_of(chars_of(path).as_slice(), true) {
            Some(name) => {
                let lower = lower_chars(name.as_slice());
                let names: Vec<&'static str> = vec![
                    "thumbs.db", "desktop.ini", ".ds_store", "hiberfil.sys", "pagefile.sys",
                ];
                let hit = member_of(lower.as_slice(), &names);
                proof {
                    assert(hit == hidden_names().contains(lower@)) by {
                        if hit {
                            let i = choose|i: int| 0 <= i < names@.len() && lower@ == (#[trigger] names@[i])@;
                            assert(hidden_names()[i] == names@[i]@);
                        }
                        if hidden_names().contains(lower@) {
                            let i = choose|i: int| 0 <= i < hidden_names().len() && hidden_names()[i] == lower@;
                            assert(hidden_names()[i] == names@[i]@);
                        }
                    }
                }
                let dot = chars_of(".");
                hit || has_prefix(name.as_slice(), dot.as_slice())
            },
            None => false,
        }
    }

    /// Whether the path names an executable file.
    pub fn is_executable(&self, path: &str) -> (res: bool)
        ensures
            res == executable_on_windows(path@),
    {
        match extension_of(chars_of(path).as_slice(), true) {
            Some(e) => {
                let lower = lower_chars(e.as_slice());
                let exts: Vec<&'static str> = vec!["exe", "bat", "cmd", "com", "scr", "msi"];
                let hit = member_of(lower.as_slice(), &exts);
                proof {
                    assert(hit == executable_extensions().contains(lower@)) by {
                        if hit {
                            let i = choose|i: int| 0 <= i < exts@.len() && lower@ == (#[trigger] exts@[i])@;
                            assert(executable_extensions()[i] == exts@[i]@);
                        }
                        if executable_extensions().contains(lower@) {
                            let i = choose|i: int| 0 <= i < executable_extensions().len()
                                && executable_extensions()[i] == lower@;
                            assert(executable_extensions()[i] == exts@[i]@);
                        }
                    }
                }
                hit
            },
            None => false,
        }
    }

    /// The path as it is: the actual case of a name on disk is not looked up.
    pub fn find_actual_case(&self, path: &str) -> (res: Option<String>)
        ensures
            res matches Some(r) && r@ == path@,
    {
        Some(owned(path))
    }

    /// Whether two paths name the same file: equal after normalization,
    /// regardless of case.
    pub fn paths_equal(&self, path1: &str, path2: &str) -> (res: bool)
        ensures
            res == (lowercase_of(normalized_windows(path1@)) == lowercase_of(normalized_windows(path2@))),
    {
        let a = self.normalize_windows_path(path1);
        let b = self.normalize_windows_path(path2);
        let la = lower_chars(chars_of(a.as_str()).as_slice());
        let lb = lower_chars(chars_of(b.as_str()).as_slice());
        crate::text::same_chars(la.as_slice(), lb.as_slice())
    }

    /// Whether the path's extension is one of `extensions`, regardless of
    /// case.
    pub fn matches_extension(&self, path: &str, extensions: &[String]) -> (res: bool)
        ensures
            res == match extension(path@, true) {
                Some(e) => exists|i: int|
                    0 <= i < extensions@.len() && same_name(e, #[trigger] texts(extensions@)[i], false),
                None => false,
            },
    {
        match extension_of(chars_of(path).as_slice(), true) {
            Some(e) => extension_listed(e.as_slice(), extensions, false),
            None => false,
        }
    }
}

impl FileSystemManager for WindowsFileSystemManager {
    fn normalize_path(&self, path: &str) -> (res: String)
        ensures
            res@ == normalized_windows(path@),
    {
        self.normalize_windows_path(path)
    }

    fn paths_equal(&self, path1: &str, path2: &str) -> (res: bool)
        ensures
            res == (lowercase_of(normalized_windows(path1@)) == lowercase_of(normalized_windows(path2@))),
    {
        WindowsFileSystemManager::paths_equal(self, path1, path2)
    }

    fn validate_path(&self, path: &str) -> (res: Result<(), FileSystemError>)
        ensures
            match windows_path_problem(path@) {
                None => res is Ok,
                Some(reason) => res matches Err(FileSystemError::InvalidPath { path: p, reason: r })
                    && p@ == path@ && r@ == reason,
            },
    {
        self.validate_windows_path(path)
    }

    fn matches_extension(&self, path: &str, extensions: &[String]) -> (res: bool)
        ensures
            res == match extension(path@, true) {
                Some(e) => exists|i: int|
                    0 <= i < extensions@.len() && same_name(e, #[trigger] texts(extensions@)[i], false),
                None => false,
            },
    {
        WindowsFileSystemManager::matches_extension(self, path, extensions)
    }
}

} // verus!
