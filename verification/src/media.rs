//! Media scanning decisions: the MIME type of a file, when a stored record
//! is stale, how a directory scan reconciles the database with the file
//! system, and the tally of a scan.
use vstd::prelude::*;
use crate::clock::Timestamp;
use crate::database::{file_views, MediaFile, MediaFileView};
use crate::filesystem::{lookup_media_type, mime_for_extension, PlatformFileSystemManager};
use crate::library::{dir_components, same_dir};
use crate::path::{extension, extension_of};
use crate::text::{chars_of, decimal, lower_chars, lowercase_of, owned, push_decimal, push_str, starts_with};
use crate::windows_fs::normalized_windows;

verus! {

/// An error met while scanning a directory.
#[derive(Debug, Clone)]
pub struct ScanError {
    pub path: String,
    pub error: String,
}

/// Result of a media scanning operation.
#[derive(Debug, Clone)]
pub struct ScanResult {
    /// Files newly added to the database.
    pub new_files: Vec<MediaFile>,
    /// Files updated in the database.
    pub updated_files: Vec<MediaFile>,
    /// Files removed from the database.
    pub removed_files: Vec<MediaFile>,
    /// Files left unchanged.
    pub unchanged_files: Vec<MediaFile>,
    /// Number of files found on the file system.
    pub total_scanned: usize,
    /// Errors met during scanning.
    pub errors: Vec<ScanError>,
}

impl ScanResult {
    /// The number of changes a result records.
    pub open spec fn changes(&self) -> nat {
        self.new_files@.len() + self.updated_files@.len() + self.removed_files@.len()
    }

    /// The text of a scan summary with the given counts.
    pub open spec fn summary_text(&self) -> Seq<char> {
        "Scanned "@ + decimal(self.total_scanned as nat) + " files: "@ + decimal(self.new_files@.len())
            + " new, "@ + decimal(self.updated_files@.len()) + " updated, "@ + decimal(
            self.removed_files@.len(),
        ) + " removed, "@ + decimal(self.unchanged_files@.len()) + " unchanged, "@ + decimal(
            self.errors@.len(),
        ) + " errors"@
    }

    /// Create a new empty scan result.
    pub fn new() -> (res: ScanResult)
        ensures
            res.new_files@.len() == 0,
            res.updated_files@.len() == 0,
            res.removed_files@.len() == 0,
            res.unchanged_files@.len() == 0,
            res.total_scanned == 0,
            res.errors@.len() == 0,
    {
        ScanResult {
            new_files: Vec::new(),
            updated_files: Vec::new(),
            removed_files: Vec::new(),
            unchanged_files: Vec::new(),
            total_scanned: 0,
            errors: Vec::new(),
        }
    }

    /// Merge another scan result into this one: each list gains the other's
    /// entries after its own, and the scanned counts add up.
    pub fn merge(&mut self, other: ScanResult)
        requires
            old(self).total_scanned + other.total_scanned <= usize::MAX,
        ensures
            final(self).new_files@ == old(self).new_files@ + other.new_files@,
            final(self).updated_files@ == old(self).updated_files@ + other.updated_files@,
            final(self).removed_files@ == old(self).removed_files@ + other.removed_files@,
            final(self).unchanged_files@ == old(self).unchanged_files@ + other.unchanged_files@,
            final(self).total_scanned == old(self).total_scanned + other.total_scanned,
            final(self).errors@ == old(self).errors@ + other.errors@,
    {
        let mut other = other;
        self.new_files.append(&mut other.new_files);
        self.updated_files.append(&mut other.updated_files);
        self.removed_files.append(&mut other.removed_files);
        self.unchanged_files.append(&mut other.unchanged_files);
        self.total_scanned = self.total_scanned + other.total_scanned;
        self.errors.append(&mut other.errors);
    }

    /// The number of changes (new + updated + removed).
    pub fn total_changes(&self) -> (res: usize)
        requires
            self.changes() <= usize::MAX,
        ensures
            res == self.changes(),
    {
        self.new_files.len() + self.updated_files.len() + self.removed_files.len()
    }

    /// Whether any changes were made: some file was added, updated or
    /// removed.
    pub fn has_changes(&self) -> (res: bool)
        ensures
            res == (self.changes() > 0),
    {
        self.new_files.len() > 0 || self.updated_files.len() > 0 || self.removed_files.len() > 0
    }

    /// A one-line summary of the counts.
    pub fn summary(&self) -> (res: String)
        ensures
            res@ == self.summary_text(),
    {
        let mut s = owned("Scanned ");
        push_decimal(&mut s, self.total_scanned as u64);
        push_str(&mut s, " files: ");
        push_decimal(&mut s, self.new_files.len() as u64);
        push_str(&mut s, " new, ");
        push_decimal(&mut s, self.updated_files.len() as u64);
        push_str(&mut s, " updated, ");
        push_decimal(&mut s, self.removed_files.len() as u64);
        push_str(&mut s, " removed, ");
        push_decimal(&mut s, self.unchanged_files.len() as u64);
        push_str(&mut s, " unchanged, ");
        push_decimal(&mut s, self.errors.len() as u64);
        push_str(&mut s, " errors");
        s
    }
}

/// A scan result's changes are its added, updated and removed files;
/// unchanged files and errors never count, and it has changes exactly when
/// one of those three lists is not empty.
pub proof fn law_changes_are_added_updated_removed(r: ScanResult)
    ensures
        r.changes() == r.new_files@.len() + r.updated_files@.len() + r.removed_files@.len(),
        r.changes() > 0 <==> (r.new_files@.len() > 0 || r.updated_files@.len() > 0 || r.removed_files@.len() > 0),
{
}

/// Merging scan results adds their change counts.
pub proof fn law_merge_adds_changes(a: ScanResult, b: ScanResult, m: ScanResult)
    requires
        m.new_files@ == a.new_files@ + b.new_files@,
        m.updated_files@ == a.updated_files@ + b.updated_files@,
        m.removed_files@ == a.removed_files@ + b.removed_files@,
    ensures
        m.changes() == a.changes() + b.changes(),
        m.changes() > 0 <==> (a.changes() > 0 || b.changes() > 0),
{
}

// ---------------------------------------------------------------------------
// MIME types and staleness
// ---------------------------------------------------------------------------

/// The MIME type served for a path: that of its extension, matched without
/// regard to case, the empty extension standing for a path without one.
pub open spec fn mime_for_path(p: Seq<char>) -> Seq<char> {
    mime_for_extension(extension_or_empty(p))
}

/// The extension of a path, or the empty text when it has none.
pub open spec fn extension_or_empty(p: Seq<char>) -> Seq<char> {
    match extension(p, false) {
        Some(e) => e,
        None => Seq::empty(),
    }
}

/// Get the MIME type for a file based on its extension: the type of its
/// extension, or of the empty extension when it has none.
pub fn get_mime_type(path: &str) -> (res: String)
    ensures
        res@ == mime_for_path(path@),
{
    let e = match extension_of(chars_of(path).as_slice(), false) {
        Some(e) => e,
        None => Vec::new(),
    };
    proof {
        assert(e@ == extension_or_empty(path@));
    }
    let lower = lower_chars(e.as_slice());
    match lookup_media_type(lower.as_slice()) {
        Some(m) => owned(m),
        None => owned("application/octet-stream"),
    }
}

/// Get the MIME type for a file based on its extension (older name).
pub fn get_mime_type_legacy(path: &str) -> (res: String)
    ensures
        res@ == mime_for_path(path@),
{
    get_mime_type(path)
}

/// The MIME type of a path is the type of its extension, the empty
/// extension standing for a path without one.
pub proof fn law_mime_of_path_is_mime_of_extension(p: Seq<char>)
    ensures
        mime_for_path(p) == mime_for_extension(
            match extension(p, false) {
                Some(e) => e,
                None => Seq::empty(),
            },
        ),
{
}

/// Whether a stored record no longer describes the file on disk: the size,
/// MIME type or name differs, or the modification times are eleven seconds
/// or more apart.
pub open spec fn needs_update(existing: MediaFileView, current: MediaFileView) -> bool {
    ||| existing.size != current.size
    ||| existing.mime_type != current.mime_type
    ||| existing.filename != current.filename
    ||| existing.modified.total_nanos() - current.modified.total_nanos() >= 11_000_000_000
    ||| current.modified.total_nanos() - existing.modified.total_nanos() >= 11_000_000_000
}

fn total_nanos(t: Timestamp) -> (res: i128)
    ensures
        res == t.total_nanos(),
{
    (t.secs as i128) * 1_000_000_000 + (t.nanos as i128)
}

/// Whether a stored record must be refreshed from the file on disk.
pub fn file_needs_update(existing: &MediaFile, current: &MediaFile) -> (res: bool)
    ensures
        res == needs_update(existing@, current@),
{
    if existing.size != current.size {
        return true;
    }
    if !existing.mime_type.eq(&current.mime_type) || !existing.filename.eq(&current.filename) {
        return true;
    }
    let a = total_nanos(existing.modified);
    let b = total_nanos(current.modified);
    let diff = if a > b { a - b } else { b - a };
    diff >= 11_000_000_000
}

/// Whether a recursive scan descends into a directory of this name: not a
/// hidden one, nor one of the system folders.
pub open spec fn descend_into(name: Seq<char>) -> bool {
    !starts_with(name, "."@) && !seq![
        "system volume information"@,
        "$recycle.bin"@,
        "recycler"@,
        "windows"@,
        "program files"@,
        "program files (x86)"@,
    ].contains(lowercase_of(name))
}

/// Whether a recursive scan descends into the directory named `dir_name`.
pub fn should_descend(dir_name: &str) -> (res: bool)
    ensures
        res == descend_into(dir_name@),
{
    let n = chars_of(dir_name);
    if n.len() > 0 && n[0] == '.' {
        proof {
            reveal_strlit(".");
            assert(n@.subrange(0, 1) =~= "."@);
        }
        return false;
    }
    proof {
        reveal_strlit(".");
        if starts_with(dir_name@, "."@) {
            assert(n@[0] == "."@[0]);
        }
    }
    let lower = lower_chars(n.as_slice());
    let names: Vec<&'static str> = vec![
        "system volume information",
        "$recycle.bin",
        "recycler",
        "windows",
        "program files",
        "program files (x86)",
    ];
    let ghost sys = seq![
        "system volume information"@,
        "$recycle.bin"@,
        "recycler"@,
        "windows"@,
        "program files"@,
        "program files (x86)"@,
    ];
    assert(names@.map_values(|s: &str| s@) =~= sys);
    let mut i: usize = 0;
    while i < names.len()
        invariant
            i <= names.len(),
            names@.map_values(|s: &str| s@) == sys,
            sys == seq![
                "system volume information"@,
                "$recycle.bin"@,
                "recycler"@,
                "windows"@,
                "program files"@,
                "program files (x86)"@,
            ],
            lower@ == lowercase_of(dir_name@),
            forall|j: int| 0 <= j < i ==> (#[trigger] names@[j])@ != lower@,
        decreases names.len() - i,
    {
        if crate::text::eq_str(lower.as_slice(), names[i]) {
            proof {
                assert(sys[i as int] == names@[i as int]@);
                assert(sys.contains(lower@));
            }
            return false;
        }
        i = i + 1;
    }
    proof {
        if sys.contains(lower@) {
            let k = choose|k: int| 0 <= k < sys.len() && sys[k] == lower@;
            assert(sys[k] == names@[k]@);
        }
    }
    true
}

// ---------------------------------------------------------------------------
// Reconciling a directory scan with the database
// ---------------------------------------------------------------------------

/// The form a file-system manager gives a path.
pub open spec fn normalized_by(fm: PlatformFileSystemManager, p: Seq<char>) -> Seq<char> {
    match fm {
        PlatformFileSystemManager::Base(_) => p,
        PlatformFileSystemManager::Windows(_) => normalized_windows(p),
    }
}

impl PlatformFileSystemManager {
    /// The normalized form of a path.
    pub fn normalize(&self, path: &str) -> (res: String)
        ensures
            res@ == normalized_by(*self, path@),
    {
        match self {
            PlatformFileSystemManager::Base(b) => b.normalize_path(path),
            PlatformFileSystemManager::Windows(w) => w.normalize_windows_path(path),
        }
    }
}

/// Whether the manager follows Windows path rules.
pub open spec fn windows_rules(fm: PlatformFileSystemManager) -> bool {
    fm is Windows
}

/// The components of a path by the manager's platform (`Path == Path`
/// compares these).
pub open spec fn path_parts(fm: PlatformFileSystemManager, p: Seq<char>) -> Seq<Seq<char>> {
    dir_components(p, windows_rules(fm))
}

/// The key a record or a scanned file is found by: the components of its
/// normalized path.
pub open spec fn key_parts(fm: PlatformFileSystemManager, p: Seq<char>) -> Seq<Seq<char>> {
    path_parts(fm, normalized_by(fm, p))
}

/// The position of the last record whose key is `k`.
pub open spec fn last_with_key(s: Seq<MediaFileView>, fm: PlatformFileSystemManager, k: Seq<Seq<char>>) -> Option<
    int,
>
    decreases s.len(),
{
    if s.len() == 0 {
        None
    } else if key_parts(fm, s.last().path) == k {
        Some(s.len() - 1)
    } else {
        last_with_key(s.drop_last(), fm, k)
    }
}

/// The position of the first of the first `n` records whose key is `k`.
pub open spec fn first_with_key(s: Seq<MediaFileView>, fm: PlatformFileSystemManager, k: Seq<Seq<char>>, n: nat) -> Option<
    int,
>
    decreases n,
{
    if n == 0 {
        None
    } else {
        match first_with_key(s, fm, k, (n - 1) as nat) {
            Some(j) => Some(j),
            None => if key_parts(fm, s[n - 1].path) == k {
                Some(n - 1)
            } else {
                None
            },
        }
    }
}

/// The position of the last record whose path is `p`, compared part by part.
pub open spec fn last_with_path(s: Seq<MediaFileView>, fm: PlatformFileSystemManager, p: Seq<char>) -> Option<int>
    decreases s.len(),
{
    if s.len() == 0 {
        None
    } else if path_parts(fm, s.last().path) == path_parts(fm, p) {
        Some(s.len() - 1)
    } else {
        last_with_path(s.drop_last(), fm, p)
    }
}

/// Record `i` is the last of `s` with its key (the one a map keyed by
/// normalized paths keeps as the value).
pub open spec fn kept(s: Seq<MediaFileView>, fm: PlatformFileSystemManager, i: int) -> bool {
    forall|j: int| i < j < s.len() ==> key_parts(fm, #[trigger] s[j].path) != key_parts(fm, s[i].path)
}

/// The normalized path under which scanned file `i` is recorded: that of the
/// first scanned file with its key (the key a map keyed by normalized paths
/// keeps when later files with an equal key replace the value).
pub open spec fn key_text(current: Seq<MediaFileView>, fm: PlatformFileSystemManager, i: int) -> Seq<char> {
    match first_with_key(current, fm, key_parts(fm, current[i].path), (i + 1) as nat) {
        Some(j) => normalized_by(fm, current[j].path),
        None => normalized_by(fm, current[i].path),
    }
}

/// The stored record matching a scanned file: by key, else by the scanned
/// file's own path.
pub open spec fn matching_record(
    existing: Seq<MediaFileView>,
    fm: PlatformFileSystemManager,
    cur: MediaFileView,
) -> Option<int> {
    match last_with_key(existing, fm, key_parts(fm, cur.path)) {
        Some(i) => Some(i),
        None => last_with_path(existing, fm, cur.path),
    }
}

/// What a scan does with one scanned file.
pub enum FileDecision {
    /// Refresh the stored record with this content.
    Update(MediaFileView),
    /// Keep the stored record as it is.
    Unchanged(MediaFileView),
    /// Store a new record.
    Add(MediaFileView),
}

/// The decision for a scanned file recorded under `k`: a stale record is
/// replaced by the scanned content under `k`, keeping its identifier and
/// creation time; a current record whose path differs, part by part, from
/// its normalized form gets the normalized path; a current record stays; a
/// file with no record is added under `k`.
pub open spec fn decide(
    existing: Seq<MediaFileView>,
    fm: PlatformFileSystemManager,
    cur: MediaFileView,
    k: Seq<char>,
    now: Timestamp,
) -> FileDecision {
    match matching_record(existing, fm, cur) {
        Some(i) => {
            let ex = existing[i];
            if needs_update(ex, cur) {
                FileDecision::Update(
                    MediaFileView { path: k, id: ex.id, created_at: ex.created_at, updated_at: now, ..cur },
                )
            } else if path_parts(fm, ex.path) != key_parts(fm, ex.path) {
                FileDecision::Update(
                    MediaFileView { path: normalized_by(fm, ex.path), updated_at: now, ..ex },
                )
            } else {
                FileDecision::Unchanged(ex)
            }
        },
        None => FileDecision::Add(MediaFileView { path: k, ..cur }),
    }
}

/// The planned work of a scan, for the first `n` scanned files: records to
/// update, records left unchanged, records to add.
pub open spec fn plan_files(
    existing: Seq<MediaFileView>,
    current: Seq<MediaFileView>,
    fm: PlatformFileSystemManager,
    now: Timestamp,
    n: nat,
) -> (Seq<MediaFileView>, Seq<MediaFileView>, Seq<MediaFileView>)
    decreases n,
{
    if n == 0 {
        (Seq::empty(), Seq::empty(), Seq::empty())
    } else {
        let k = (n - 1) as int;
        let (u, c, a) = plan_files(existing, current, fm, now, (n - 1) as nat);
        if !kept(current, fm, k) {
            (u, c, a)
        } else {
            match decide(existing, fm, current[k], key_text(current, fm, k), now) {
                FileDecision::Update(f) => (u.push(f), c, a),
                FileDecision::Unchanged(f) => (u, c.push(f), a),
                FileDecision::Add(f) => (u, c, a.push(f)),
            }
        }
    }
}

/// Whether some scanned file has key `k`.
pub open spec fn scanned_key(current: Seq<MediaFileView>, fm: PlatformFileSystemManager, k: Seq<Seq<char>>) -> bool {
    exists|j: int| 0 <= j < current.len() && key_parts(fm, #[trigger] current[j].path) == k
}

/// The stored records, among the first `n`, whose file is gone: the last
/// record for each key that no scanned file has.
pub open spec fn plan_removals(
    existing: Seq<MediaFileView>,
    current: Seq<MediaFileView>,
    fm: PlatformFileSystemManager,
    n: nat,
) -> Seq<MediaFileView>
    decreases n,
{
    if n == 0 {
        Seq::empty()
    } else {
        let k = (n - 1) as int;
        let r = plan_removals(existing, current, fm, (n - 1) as nat);
        if kept(existing, fm, k) && !scanned_key(current, fm, key_parts(fm, existing[k].path)) {
            r.push(existing[k])
        } else {
            r
        }
    }
}

/// The number of distinct keys among the first `n` scanned files.
pub open spec fn distinct_scanned(current: Seq<MediaFileView>, fm: PlatformFileSystemManager, n: nat) -> nat
    decreases n,
{
    if n == 0 {
        0
    } else {
        distinct_scanned(current, fm, (n - 1) as nat) + if kept(current, fm, n - 1) { 1nat } else { 0nat }
    }
}

/// The work a directory scan plans: what to update, keep, add and remove,
/// and how many distinct files were found.
pub struct ScanPlan {
    pub updates: Vec<MediaFile>,
    pub unchanged: Vec<MediaFile>,
    pub additions: Vec<MediaFile>,
    pub removals: Vec<MediaFile>,
    pub total_scanned: usize,
}

/// Media scanner: plans how a scan reconciles stored records with the files
/// found, under a platform's file-system rules.
pub struct MediaScanner {
    pub filesystem_manager: PlatformFileSystemManager,
}

impl MediaScanner {
    /// A scanner working under the given file-system manager.
    pub fn with_filesystem_manager(filesystem_manager: PlatformFileSystemManager) -> (res: MediaScanner)
        ensures
            res.filesystem_manager == filesystem_manager,
    {
        MediaScanner { filesystem_manager }
    }

    /// The scanner's file-system manager.
    pub fn filesystem_manager(&self) -> (res: &PlatformFileSystemManager)
        ensures
            *res == self.filesystem_manager,
    {
        &self.filesystem_manager
    }

    fn key_of(&self, f: &MediaFile) -> (res: String)
        ensures
            res@ == normalized_by(self.filesystem_manager, f.path@),
    {
        self.filesystem_manager.normalize(f.path.as_str())
    }

    fn follows_windows_rules(&self) -> (res: bool)
        ensures
            res == windows_rules(self.filesystem_manager),
    {
        match &self.filesystem_manager {
            PlatformFileSystemManager::Base(_) => false,
            PlatformFileSystemManager::Windows(_) => true,
        }
    }

    /// Whether two paths are the same path by this manager's platform.
    fn same_parts(&self, a: &str, b: &str) -> (res: bool)
        ensures
            res == (path_parts(self.filesystem_manager, a@) == path_parts(self.filesystem_manager, b@)),
    {
        same_dir(a, b, self.follows_windows_rules())
    }

    fn is_kept(&self, s: &Vec<MediaFile>, i: usize) -> (res: bool)
        requires
            i < s.len(),
        ensures
            res == kept(file_views(s@), self.filesystem_manager, i as int),
    {
        let ghost fm = self.filesystem_manager;
        let ki = self.key_of(&s[i]);
        let mut j = i + 1;
        while j < s.len()
            invariant
                i < j <= s.len(),
                fm == self.filesystem_manager,
                ki@ == normalized_by(fm, s@[i as int]@.path),
                forall|t: int|
                    i < t < j ==> key_parts(fm, #[trigger] file_views(s@)[t].path) != key_parts(
                        fm,
                        file_views(s@)[i as int].path,
                    ),
            decreases s.len() - j,
        {
            let kj = self.key_of(&s[j]);
            if self.same_parts(kj.as_str(), ki.as_str()) {
                assert(key_parts(fm, file_views(s@)[j as int].path) == key_parts(fm, file_views(s@)[i as int].path));
                return false;
            }
            j = j + 1;
        }
        true
    }

    /// The normalized path of the first of `s` with the key of `s[i]`.
    fn first_key_text(&self, s: &Vec<MediaFile>, i: usize) -> (res: String)
        requires
            i < s.len(),
        ensures
            res@ == key_text(file_views(s@), self.filesystem_manager, i as int),
    {
        let ghost fm = self.filesystem_manager;
        let ghost fv = file_views(s@);
        let ghost k = key_parts(fm, fv[i as int].path);
        let ki = self.key_of(&s[i]);
        let mut j: usize = 0;
        while j <= i
            invariant
                j <= i + 1,
                i < s.len(),
                fm == self.filesystem_manager,
                fv == file_views(s@),
                k == key_parts(fm, fv[i as int].path),
                ki@ == normalized_by(fm, fv[i as int].path),
                first_with_key(fv, fm, k, j as nat) is None,
            decreases i + 1 - j,
        {
            let kj = self.key_of(&s[j]);
            if self.same_parts(kj.as_str(), ki.as_str()) {
                proof {
                    assert(first_with_key(fv, fm, k, (j + 1) as nat) == Some(j as int));
                    lemma_first_with_key_stays(fv, fm, k, (j + 1) as nat, (i + 1) as nat);
                }
                return kj;
            }
            j = j + 1;
        }
        proof {
            assert(first_with_key(fv, fm, k, (i + 1) as nat) is Some);
        }
        ki
    }
}

/// Once some of the first `m` records has key `k`, the first such stays the
/// first among more records.
proof fn lemma_first_with_key_stays(
    s: Seq<MediaFileView>,
    fm: PlatformFileSystemManager,
    k: Seq<Seq<char>>,
    m: nat,
    n: nat,
)
    requires
        m <= n,
        first_with_key(s, fm, k, m) is Some,
    ensures
        first_with_key(s, fm, k, n) == first_with_key(s, fm, k, m),
    decreases n - m,
{
    if m < n {
        lemma_first_with_key_stays(s, fm, k, m, (n - 1) as nat);
    }
}


/// Every distinct file found is accounted for exactly once: the updated,
/// unchanged and added records together number the distinct paths scanned.
pub proof fn law_plan_accounts_for_every_file(
    existing: Seq<MediaFileView>,
    current: Seq<MediaFileView>,
    fm: PlatformFileSystemManager,
    now: Timestamp,
    n: nat,
)
    ensures
        plan_files(existing, current, fm, now, n).0.len() + plan_files(existing, current, fm, now, n).1.len()
            + plan_files(existing, current, fm, now, n).2.len() == distinct_scanned(current, fm, n),
    decreases n,
{
    if n > 0 {
        law_plan_accounts_for_every_file(existing, current, fm, now, (n - 1) as nat);
    }
}

impl MediaScanner {
    fn find_by_key(&self, s: &Vec<MediaFile>, k: &String) -> (res: Option<usize>)
        ensures
            match res {
                Some(i) => i < s.len() && last_with_key(
                    file_views(s@),
                    self.filesystem_manager,
                    path_parts(self.filesystem_manager, k@),
                ) == Some(i as int),
                None => last_with_key(file_views(s@), self.filesystem_manager, path_parts(self.filesystem_manager, k@))
                    is None,
            },
    {
        let ghost fm = self.filesystem_manager;
        let ghost kp = path_parts(fm, k@);
        let mut n = s.len();
        proof {
            assert(file_views(s@).subrange(0, n as int) =~= file_views(s@));
        }
        while n > 0
            invariant
                n <= s.len(),
                fm == self.filesystem_manager,
                kp == path_parts(fm, k@),
                last_with_key(file_views(s@), fm, kp) == last_with_key(file_views(s@).subrange(0, n as int), fm, kp),
            decreases n,
        {
            proof {
                assert(file_views(s@).subrange(0, n as int).drop_last() =~= file_views(s@).subrange(0, n - 1));
            }
            let key = self.key_of(&s[n - 1]);
            if self.same_parts(key.as_str(), k.as_str()) {
                return Some(n - 1);
            }
            n = n - 1;
        }
        None
    }

    fn find_by_path(&self, s: &Vec<MediaFile>, p: &String) -> (res: Option<usize>)
        ensures
            match res {
                Some(i) => i < s.len() && last_with_path(file_views(s@), self.filesystem_manager, p@) == Some(i as int),
                None => last_with_path(file_views(s@), self.filesystem_manager, p@) is None,
            },
    {
        let ghost fm = self.filesystem_manager;
        let mut n = s.len();
        proof {
            assert(file_views(s@).subrange(0, n as int) =~= file_views(s@));
        }
        while n > 0
            invariant
                n <= s.len(),
                fm == self.filesystem_manager,
                last_with_path(file_views(s@), fm, p@) == last_with_path(file_views(s@).subrange(0, n as int), fm, p@),
            decreases n,
        {
            proof {
                assert(file_views(s@).subrange(0, n as int).drop_last() =~= file_views(s@).subrange(0, n - 1));
            }
            if self.same_parts(s[n - 1].path.as_str(), p.as_str()) {
                return Some(n - 1);
            }
            n = n - 1;
        }
        None
    }

    fn has_scanned_key(&self, current: &Vec<MediaFile>, k: &String) -> (res: bool)
        ensures
            res == scanned_key(file_views(current@), self.filesystem_manager, path_parts(self.filesystem_manager, k@)),
    {
        let ghost fm = self.filesystem_manager;
        let ghost kp = path_parts(fm, k@);
        let mut j: usize = 0;
        while j < current.len()
            invariant
                j <= current.len(),
                fm == self.filesystem_manager,
                kp == path_parts(fm, k@),
                forall|t: int| 0 <= t < j ==> key_parts(fm, #[trigger] file_views(current@)[t].path) != kp,
            decreases current.len() - j,
        {
            let key = self.key_of(&current[j]);
            if self.same_parts(key.as_str(), k.as_str()) {
                assert(key_parts(fm, file_views(current@)[j as int].path) == kp);
                return true;
            }
            j = j + 1;
        }
        false
    }

    /// The decision for one scanned file recorded under `k`, as a record and
    /// its kind (0: update, 1: unchanged, 2: add).
    fn decide_file(&self, existing: &Vec<MediaFile>, cur: &MediaFile, k: String, now: Timestamp) -> (res: (
        u8,
        MediaFile,
    ))
        ensures
            match decide(file_views(existing@), self.filesystem_manager, cur@, k@, now) {
                FileDecision::Update(f) => res.0 == 0 && res.1@ == f,
                FileDecision::Unchanged(f) => res.0 == 1 && res.1@ == f,
                FileDecision::Add(f) => res.0 == 2 && res.1@ == f,
            },
    {
        let ck = self.key_of(cur);
        let found = match self.find_by_key(existing, &ck) {
            Some(i) => Some(i),
            None => self.find_by_path(existing, &cur.path),
        };
        match found {
            Some(i) => {
                let ex = &existing[i];
                if file_needs_update(ex, cur) {
                    let mut f = cur.copy();
                    f.path = k;
                    f.id = ex.id;
                    f.created_at = ex.created_at;
                    f.updated_at = now;
                    (0, f)
                } else {
                    let ex_norm = self.key_of(ex);
                    if !self.same_parts(ex.path.as_str(), ex_norm.as_str()) {
                        let mut f = ex.copy();
                        f.path = ex_norm;
                        f.updated_at = now;
                        (0, f)
                    } else {
                        (1, ex.copy())
                    }
                }
            },
            None => {
                let mut f = cur.copy();
                f.path = k;
                (2, f)
            },
        }
    }

    /// Plans how a directory scan reconciles the stored records `existing`
    /// with the files found, `current`, at time `now`. Paths are keyed by
    /// their normalized form, compared part by part. For each distinct key
    /// found (the last file with it, recorded under the normalized path of
    /// the first), update, keep or add a record; remove the last record of
    /// each key no longer found; count the distinct keys found.
    pub fn plan_incremental_update(
        &self,
        existing: &Vec<MediaFile>,
        current: &Vec<MediaFile>,
        now: Timestamp,
    ) -> (res: ScanPlan)
        ensures
            file_views(res.updates@) == plan_files(file_views(existing@), file_views(current@), self.filesystem_manager, now, current@.len()).0,
            file_views(res.unchanged@) == plan_files(file_views(existing@), file_views(current@), self.filesystem_manager, now, current@.len()).1,
            file_views(res.additions@) == plan_files(file_views(existing@), file_views(current@), self.filesystem_manager, now, current@.len()).2,
            file_views(res.removals@) == plan_removals(file_views(existing@), file_views(current@), self.filesystem_manager, existing@.len()),
            res.total_scanned == distinct_scanned(file_views(current@), self.filesystem_manager, current@.len()),
    {
        let ghost fm = self.filesystem_manager;
        let ghost ex = file_views(existing@);
        let ghost cu = file_views(current@);
        let mut updates: Vec<MediaFile> = Vec::new();
        let mut unchanged: Vec<MediaFile> = Vec::new();
        let mut additions: Vec<MediaFile> = Vec::new();
        let mut total: usize = 0;
        let mut i: usize = 0;
        while i < current.len()
            invariant
                i <= current.len(),
                fm == self.filesystem_manager,
                ex == file_views(existing@),
                cu == file_views(current@),
                total <= i,
                (file_views(updates@), file_views(unchanged@), file_views(additions@))
                    == plan_files(ex, cu, fm, now, i as nat),
                total == distinct_scanned(cu, fm, i as nat),
            decreases current.len() - i,
        {
            if self.is_kept(current, i) {
                let k = self.first_key_text(current, i);
                let (kind, f) = self.decide_file(existing, &current[i], k, now);
                proof {
                    assert(cu[i as int] == current@[i as int]@);
                }
                if kind == 0 {
                    let ghost prev = updates@;
                    updates.push(f);
                    proof {
                        assert(file_views(updates@) =~= file_views(prev).push(f@));
                    }
                } else if kind == 1 {
                    let ghost prev = unchanged@;
                    unchanged.push(f);
                    proof {
                        assert(file_views(unchanged@) =~= file_views(prev).push(f@));
                    }
                } else {
                    let ghost prev = additions@;
                    additions.push(f);
                    proof {
                        assert(file_views(additions@) =~= file_views(prev).push(f@));
                    }
                }
                total = total + 1;
            }
            i = i + 1;
        }
        let mut removals: Vec<MediaFile> = Vec::new();
        let mut j: usize = 0;
        while j < existing.len()
            invariant
                j <= existing.len(),
                fm == self.filesystem_manager,
                ex == file_views(existing@),
                cu == file_views(current@),
                file_views(removals@) == plan_removals(ex, cu, fm, j as nat),
            decreases existing.len() - j,
        {
            if self.is_kept(existing, j) {
                let k = self.key_of(&existing[j]);
                if !self.has_scanned_key(current, &k) {
                    let ghost prev = removals@;
                    removals.push(existing[j].copy());
                    proof {
                        assert(file_views(removals@) =~= file_views(prev).push(ex[j as int]));
                    }
                }
            }
            j = j + 1;
        }
        ScanPlan { updates, unchanged, additions, removals, total_scanned: total }
    }

    /// Plans a directory scan at the current time (see
    /// `plan_incremental_update`).
    pub fn perform_incremental_update(&self, existing: &Vec<MediaFile>, current: &Vec<MediaFile>) -> (res: ScanPlan)
        ensures
            exists|now: Timestamp| {
                &&& file_views(res.updates@) == plan_files(file_views(existing@), file_views(current@), self.filesystem_manager, now, current@.len()).0
                &&& file_views(res.unchanged@) == plan_files(file_views(existing@), file_views(current@), self.filesystem_manager, now, current@.len()).1
                &&& file_views(res.additions@) == plan_files(file_views(existing@), file_views(current@), self.filesystem_manager, now, current@.len()).2
            },
            file_views(res.removals@) == plan_removals(file_views(existing@), file_views(current@), self.filesystem_manager, existing@.len()),
            res.total_scanned == distinct_scanned(file_views(current@), self.filesystem_manager, current@.len()),
    {
        let t = crate::clock::now();
        self.plan_incremental_update(existing, current, t)
    }
}

} // verus!
