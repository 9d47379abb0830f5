//! The served media library in memory: what each file-system event asks of
//! it, how the cached records follow additions, updates, deletions and
//! moves, and the content update counter that tells clients of a change.
use vstd::prelude::*;
use crate::database::{file_views, MediaFile, MediaFileView};
use crate::filesystem::media_type;
use crate::path::{extension, extension_of};
use crate::text::{
    chars_of, has_prefix, lower_chars, lowercase_of, same_chars, split, split_on, starts_with, upper_chars, views,
};
use crate::windows_fs::upper_first;
use crate::watcher::{EventView, FileSystemEvent};

verus! {

// ---------------------------------------------------------------------------
// What an event asks for
// ---------------------------------------------------------------------------

/// A path names a supported media file when its extension, in lower case,
/// has a media type.
pub open spec fn supported_media_path(p: Seq<char>) -> bool {
    match extension(p, false) {
        Some(e) => media_type(lowercase_of(e)) is Some,
        None => false,
    }
}

/// Whether a path names a supported media file.
pub fn is_supported_media_path(path: &str) -> (res: bool)
    ensures
        res == supported_media_path(path@),
{
    match extension_of(chars_of(path).as_slice(), false) {
        Some(e) => {
            let s = crate::text::string_of(e.as_slice());
            crate::filesystem::is_supported_media_extension(s.as_str())
        },
        None => false,
    }
}

/// The work one file-system event calls for.
#[derive(Debug, Clone)]
pub enum EventAction {
    /// Scan a new directory and add what it holds.
    ScanDirectory(String),
    /// Record a new media file.
    AddFile(String),
    /// Refresh the record of a changed file.
    UpdateFile(String),
    /// Forget a deleted file, or everything under a deleted directory.
    RemovePath(String),
    /// Forget what was under a renamed directory and scan it at its new place.
    RescanDirectory { from: String, to: String },
    /// Forget a renamed media file's old record and record it at its new place.
    MoveFile { from: String, to: String },
    /// Nothing to do.
    Ignore,
}

/// The content of an action.
pub enum ActionView {
    ScanDirectory(Seq<char>),
    AddFile(Seq<char>),
    UpdateFile(Seq<char>),
    RemovePath(Seq<char>),
    RescanDirectory(Seq<char>, Seq<char>),
    MoveFile(Seq<char>, Seq<char>),
    Ignore,
}

impl View for EventAction {
    type V = ActionView;

    open spec fn view(&self) -> ActionView {
        match self {
            EventAction::ScanDirectory(p) => ActionView::ScanDirectory(p@),
            EventAction::AddFile(p) => ActionView::AddFile(p@),
            EventAction::UpdateFile(p) => ActionView::UpdateFile(p@),
            EventAction::RemovePath(p) => ActionView::RemovePath(p@),
            EventAction::RescanDirectory { from, to } => ActionView::RescanDirectory(from@, to@),
            EventAction::MoveFile { from, to } => ActionView::MoveFile(from@, to@),
            EventAction::Ignore => ActionView::Ignore,
        }
    }
}

/// The action for an event, given whether the path it leads to (the
/// destination of a rename) is a directory: new directories are scanned;
/// created or renamed files count only when they are media files; changed
/// files are refreshed and deleted paths forgotten.
pub open spec fn event_action(e: EventView, target_is_dir: bool) -> ActionView {
    match e {
        EventView::Created(p) => if target_is_dir {
            ActionView::ScanDirectory(p)
        } else if supported_media_path(p) {
            ActionView::AddFile(p)
        } else {
            ActionView::Ignore
        },
        EventView::Modified(p) => ActionView::UpdateFile(p),
        EventView::Deleted(p) => ActionView::RemovePath(p),
        EventView::Renamed(from, to) => if target_is_dir {
            ActionView::RescanDirectory(from, to)
        } else if supported_media_path(to) {
            ActionView::MoveFile(from, to)
        } else {
            ActionView::Ignore
        },
    }
}

/// Decide what a file-system event calls for.
pub fn plan_event(event: &FileSystemEvent, target_is_dir: bool) -> (res: EventAction)
    ensures
        res@ == event_action(event@, target_is_dir),
{
    match event {
        FileSystemEvent::Created(p) => if target_is_dir {
            EventAction::ScanDirectory(p.clone())
        } else if is_supported_media_path(p.as_str()) {
            EventAction::AddFile(p.clone())
        } else {
            EventAction::Ignore
        },
        FileSystemEvent::Modified(p) => EventAction::UpdateFile(p.clone()),
        FileSystemEvent::Deleted(p) => EventAction::RemovePath(p.clone()),
        FileSystemEvent::Renamed { from, to } => if target_is_dir {
            EventAction::RescanDirectory { from: from.clone(), to: to.clone() }
        } else if is_supported_media_path(to.as_str()) {
            EventAction::MoveFile { from: from.clone(), to: to.clone() }
        } else {
            EventAction::Ignore
        },
    }
}

// ---------------------------------------------------------------------------
// The cached records
// ---------------------------------------------------------------------------

/// Some record of `s` has path `p`, compared part by part (`Path == Path`).
pub open spec fn has_path(s: Seq<MediaFileView>, p: Seq<char>) -> bool {
    exists|i: int| 0 <= i < s.len() && components(#[trigger] s[i].path) == components(p)
}

/// `cache` after adding, in order, each record of `found` whose path it does
/// not hold yet.
pub open spec fn with_uncached(cache: Seq<MediaFileView>, found: Seq<MediaFileView>) -> Seq<MediaFileView>
    decreases found.len(),
{
    if found.len() == 0 {
        cache
    } else {
        let r = with_uncached(cache, found.drop_last());
        if has_path(r, found.last().path) {
            r
        } else {
            r.push(found.last())
        }
    }
}

/// The position of the first record of `s` with path `p`.
pub open spec fn first_with_path(s: Seq<MediaFileView>, p: Seq<char>) -> Option<int> {
    if has_path(s, p) {
        Some(
            choose|i: int|
                0 <= i < s.len() && components(s[i].path) == components(p) && forall|j: int|
                    0 <= j < i ==> components(#[trigger] s[j].path) != components(p),
        )
    } else {
        None
    }
}

/// The records of `s` whose path differs from `p`, part by part.
pub open spec fn without_path(s: Seq<MediaFileView>, p: Seq<char>) -> Seq<MediaFileView> {
    s.filter(|f: MediaFileView| components(f.path) != components(p))
}

/// A path lies under `prefix` when, both in lower case, it starts with it.
pub open spec fn under_prefix(path: Seq<char>, prefix: Seq<char>) -> bool {
    starts_with(lowercase_of(path), lowercase_of(prefix))
}

/// The records of `s` that do not lie under `prefix`.
pub open spec fn outside_prefix(s: Seq<MediaFileView>, prefix: Seq<char>) -> Seq<MediaFileView> {
    s.filter(|f: MediaFileView| !under_prefix(f.path, prefix))
}


fn cached_path_index(cache: &Vec<MediaFile>, p: &str) -> (res: Option<usize>)
    ensures
        match res {
            Some(i) => i < cache@.len() && first_with_path(file_views(cache@), p@) == Some(i as int),
            None => first_with_path(file_views(cache@), p@) is None,
        },
{
    let ghost s = file_views(cache@);
    let mut i: usize = 0;
    while i < cache.len()
        invariant
            i <= cache.len(),
            s == file_views(cache@),
            forall|j: int| 0 <= j < i ==> components(#[trigger] s[j].path) != components(p@),
        decreases cache.len() - i,
    {
        if same_path_components(cache[i].path.as_str(), p) {
            proof {
                assert(components(s[i as int].path) == components(p@));
                let c = choose|k: int|
                    0 <= k < s.len() && components(s[k].path) == components(p@) && forall|j: int|
                        0 <= j < k ==> components(#[trigger] s[j].path) != components(p@);
                assert(0 <= i < s.len() && components(s[i as int].path) == components(p@) && forall|j: int|
                    0 <= j < i ==> components(#[trigger] s[j].path) != components(p@));
                if c < i {
                    assert(components(s[c].path) != components(p@));
                }
                if c > i {
                    assert(components(s[i as int].path) != components(p@));
                }
            }
            return Some(i);
        }
        i = i + 1;
    }
    None
}

/// Add the records of newly found files that the cache does not hold yet,
/// one path at most once; returns how many were added.
pub fn add_uncached(cache: &mut Vec<MediaFile>, found: &Vec<MediaFile>) -> (res: usize)
    ensures
        file_views(final(cache)@) == with_uncached(file_views(old(cache)@), file_views(found@)),
        res == final(cache)@.len() - old(cache)@.len(),
{
    let ghost start = file_views(cache@);
    let ghost n0 = cache@.len();
    let mut added: usize = 0;
    let mut i: usize = 0;
    while i < found.len()
        invariant
            i <= found.len(),
            file_views(cache@) == with_uncached(start, file_views(found@).subrange(0, i as int)),
            n0 == start.len(),
            added == cache@.len() - n0,
            added <= i,
        decreases found.len() - i,
    {
        proof {
            assert(file_views(found@).subrange(0, i + 1).drop_last() =~= file_views(found@).subrange(0, i as int));
        }
        match cached_path_index(cache, found[i].path.as_str()) {
            Some(_) => {},
            None => {
                let ghost prev = cache@;
                cache.push(found[i].copy());
                added = added + 1;
                proof {
                    assert(file_views(cache@) =~= file_views(prev).push(found@[i as int]@));
                }
            },
        }
        i = i + 1;
    }
    proof {
        assert(file_views(found@).subrange(0, found@.len() as int) =~= file_views(found@));
    }
    added
}

/// Put an updated record in place of the first cached record with its path;
/// returns whether there was one.
pub fn replace_cached(cache: &mut Vec<MediaFile>, file: MediaFile) -> (res: bool)
    ensures
        match first_with_path(file_views(old(cache)@), file.path@) {
            Some(i) => res && file_views(final(cache)@) == file_views(old(cache)@).update(i, file@),
            None => !res && final(cache)@ == old(cache)@,
        },
{
    match cached_path_index(cache, file.path.as_str()) {
        Some(i) => {
            let ghost prev = cache@;
            let ghost v = file@;
            cache.set(i, file);
            proof {
                assert(file_views(cache@) =~= file_views(prev).update(i as int, v));
            }
            true
        },
        None => false,
    }
}

/// Drop every cached record with this path; returns how many went.
pub fn remove_cached_path(cache: &mut Vec<MediaFile>, path: &str) -> (res: usize)
    ensures
        file_views(final(cache)@) == without_path(file_views(old(cache)@), path@),
        res == old(cache)@.len() - final(cache)@.len(),
{
    let ghost f = |x: MediaFileView| components(x.path) != components(path@);
    let mut kept: Vec<MediaFile> = Vec::new();
    let mut i: usize = 0;
    while i < cache.len()
        invariant
            i <= cache.len(),
            f == (|x: MediaFileView| components(x.path) != components(path@)),
            file_views(kept@) == file_views(cache@).subrange(0, i as int).filter(f),
            kept@.len() <= i,
        decreases cache.len() - i,
    {
        proof {
            reveal(Seq::filter);
            assert(file_views(cache@).subrange(0, i + 1).drop_last() =~= file_views(cache@).subrange(0, i as int));
        }
        if !same_path_components(cache[i].path.as_str(), path) {
            let ghost prev = kept@;
            kept.push(cache[i].copy());
            proof {
                assert(file_views(kept@) =~= file_views(prev).push(cache@[i as int]@));
            }
        }
        i = i + 1;
    }
    proof {
        assert(file_views(cache@).subrange(0, cache@.len() as int) =~= file_views(cache@));
    }
    let removed = cache.len() - kept.len();
    *cache = kept;
    removed
}

fn lies_under(path: &String, lower_prefix: &Vec<char>) -> (res: bool)
    ensures
        res == starts_with(lowercase_of(path@), lower_prefix@),
{
    let l = lower_chars(chars_of(path.as_str()).as_slice());
    has_prefix(l.as_slice(), lower_prefix.as_slice())
}

/// Drop every cached record whose path, compared without regard to letter
/// case, starts with `prefix`; returns how many went.
pub fn remove_cached_under(cache: &mut Vec<MediaFile>, prefix: &str) -> (res: usize)
    ensures
        file_views(final(cache)@) == outside_prefix(file_views(old(cache)@), prefix@),
        res == old(cache)@.len() - final(cache)@.len(),
{
    let lp = lower_chars(chars_of(prefix).as_slice());
    let ghost f = |x: MediaFileView| !under_prefix(x.path, prefix@);
    let mut kept: Vec<MediaFile> = Vec::new();
    let mut i: usize = 0;
    while i < cache.len()
        invariant
            i <= cache.len(),
            lp@ == lowercase_of(prefix@),
            f == (|x: MediaFileView| !under_prefix(x.path, prefix@)),
            file_views(kept@) == file_views(cache@).subrange(0, i as int).filter(f),
            kept@.len() <= i,
        decreases cache.len() - i,
    {
        proof {
            reveal(Seq::filter);
            assert(file_views(cache@).subrange(0, i + 1).drop_last() =~= file_views(cache@).subrange(0, i as int));
        }
        if !lies_under(&cache[i].path, &lp) {
            let ghost prev = kept@;
            kept.push(cache[i].copy());
            proof {
                assert(file_views(kept@) =~= file_views(prev).push(cache@[i as int]@));
            }
        }
        i = i + 1;
    }
    proof {
        assert(file_views(cache@).subrange(0, cache@.len() as int) =~= file_views(cache@));
    }
    let removed = cache.len() - kept.len();
    *cache = kept;
    removed
}

/// The paths of the records of `s` that satisfy `keep`, in order.
pub open spec fn paths_where(s: Seq<MediaFileView>, keep: spec_fn(Seq<char>) -> bool) -> Seq<Seq<char>> {
    s.filter(|f: MediaFileView| keep(f.path)).map_values(|f: MediaFileView| f.path)
}

/// The paths of the stored records that lie under a deleted path, compared
/// without regard to letter case.
pub fn paths_under(files: &Vec<MediaFile>, prefix: &str) -> (res: Vec<String>)
    ensures
        crate::text::texts(res@) == paths_where(file_views(files@), |p: Seq<char>| under_prefix(p, prefix@)),
{
    let lp = lower_chars(chars_of(prefix).as_slice());
    let ghost keep = |p: Seq<char>| under_prefix(p, prefix@);
    let ghost f = |x: MediaFileView| keep(x.path);
    let mut r: Vec<String> = Vec::new();
    let mut i: usize = 0;
    while i < files.len()
        invariant
            i <= files.len(),
            lp@ == lowercase_of(prefix@),
            keep == (|p: Seq<char>| under_prefix(p, prefix@)),
            f == (|x: MediaFileView| keep(x.path)),
            crate::text::texts(r@) == file_views(files@).subrange(0, i as int).filter(f).map_values(
                |x: MediaFileView| x.path,
            ),
        decreases files.len() - i,
    {
        proof {
            reveal(Seq::filter);
            assert(file_views(files@).subrange(0, i + 1).drop_last() =~= file_views(files@).subrange(0, i as int));
        }
        let ghost before = file_views(files@).subrange(0, i as int).filter(f);
        if lies_under(&files[i].path, &lp) {
            let ghost prev = r@;
            r.push(files[i].path.clone());
            proof {
                assert(crate::text::texts(r@) =~= crate::text::texts(prev).push(files@[i as int].path@));
                assert(before.push(files@[i as int]@).map_values(|x: MediaFileView| x.path) =~= before.map_values(
                    |x: MediaFileView| x.path,
                ).push(files@[i as int].path@));
            }
        }
        i = i + 1;
    }
    proof {
        assert(file_views(files@).subrange(0, files@.len() as int) =~= file_views(files@));
    }
    r
}

/// No two records of `s` share a path, compared part by part.
pub open spec fn paths_distinct(s: Seq<MediaFileView>) -> bool {
    forall|i: int, j: int| 0 <= i < j < s.len() ==> components(#[trigger] s[i].path) != components(#[trigger] s[j].path)
}

/// Adding found files to a cache whose paths are distinct keeps them
/// distinct, keeps every cached record, and leaves every found path cached.
pub proof fn law_adding_keeps_paths_unique(cache: Seq<MediaFileView>, found: Seq<MediaFileView>)
    requires
        paths_distinct(cache),
    ensures
        paths_distinct(with_uncached(cache, found)),
        with_uncached(cache, found).len() >= cache.len(),
        with_uncached(cache, found).subrange(0, cache.len() as int) == cache,
        forall|i: int| 0 <= i < found.len() ==> has_path(with_uncached(cache, found), #[trigger] found[i].path),
    decreases found.len(),
{
    if found.len() > 0 {
        let p = found.drop_last();
        law_adding_keeps_paths_unique(cache, p);
        let r = with_uncached(cache, p);
        let x = found.last();
        if !has_path(r, x.path) {
            assert(r.push(x).subrange(0, cache.len() as int) =~= r.subrange(0, cache.len() as int));
            assert forall|i: int, j: int| 0 <= i < j < r.push(x).len() implies components(
                #[trigger] r.push(x)[i].path,
            ) != components(#[trigger] r.push(x)[j].path) by {
                if j == r.len() {
                    assert(r[i] == r.push(x)[i]);
                }
            }
            assert(r.push(x)[r.len() as int] == x);
        }
        let w = with_uncached(cache, found);
        assert forall|i: int| 0 <= i < found.len() implies has_path(w, #[trigger] found[i].path) by {
            if i < found.len() - 1 {
                assert(found[i] == p[i]);
                assert(has_path(r, p[i].path));
                let k = choose|k: int| 0 <= k < r.len() && components(#[trigger] r[k].path) == components(p[i].path);
                if !has_path(r, x.path) {
                    assert(w[k] == r[k]);
                }
            } else if !has_path(r, x.path) {
                assert(w[r.len() as int] == x);
            }
        }
    }
}

/// After forgetting a deleted path, no cached record lies under it, and every
/// record that did not lie under it is still there.
pub proof fn law_removal_under_prefix(cache: Seq<MediaFileView>, prefix: Seq<char>)
    ensures
        forall|i: int| 0 <= i < outside_prefix(cache, prefix).len() ==> !under_prefix(
            #[trigger] outside_prefix(cache, prefix)[i].path,
            prefix,
        ),
        forall|f: MediaFileView| cache.contains(f) && !under_prefix(f.path, prefix) ==> outside_prefix(
            cache,
            prefix,
        ).contains(f),
{
    let pred = |f: MediaFileView| !under_prefix(f.path, prefix);
    cache.filter_lemma(pred);
    assert forall|i: int| 0 <= i < cache.filter(pred).len() implies !under_prefix(#[trigger] cache.filter(pred)[i].path, prefix) by {
        assert(pred(cache.filter(pred)[i]));
    }
    assert forall|f: MediaFileView| cache.contains(f) && !under_prefix(f.path, prefix) implies cache.filter(pred).contains(f) by {
        let i = choose|i: int| 0 <= i < cache.len() && cache[i] == f;
        assert(pred(cache[i]));
    }
}

// ---------------------------------------------------------------------------
// Directory containment by path components
// ---------------------------------------------------------------------------

/// The components of a Unix path (`Path::components`): a root marker when
/// it starts with `/`, else a `.` when it starts with `./` or is `.`; then
/// its pieces between separators other than empty ones and `.`.
pub open spec fn components(p: Seq<char>) -> Seq<Seq<char>> {
    let root: Seq<Seq<char>> = if p.len() > 0 && p[0] == '/' {
        seq![seq!['/']]
    } else if p == seq!['.'] || (p.len() >= 2 && p[0] == '.' && p[1] == '/') {
        seq![seq!['.']]
    } else {
        Seq::empty()
    };
    root + split(p, '/').filter(|c: Seq<char>| c.len() > 0 && c != seq!['.'])
}

/// `path` lies within `base` (`Path::starts_with`): the components of
/// `base` begin the components of `path`.
pub open spec fn within(path: Seq<char>, base: Seq<char>) -> bool {
    components(base).len() <= components(path).len()
        && components(path).subrange(0, components(base).len() as int) == components(base)
}

pub(crate) fn components_of(p: &[char]) -> (res: Vec<Vec<char>>)
    ensures
        views(res@) == components(p@),
{
    let mut r: Vec<Vec<char>> = Vec::new();
    if p.len() > 0 && p[0] == '/' {
        let mut root: Vec<char> = Vec::new();
        root.push('/');
        r.push(root);
        proof {
            assert(views(r@) =~= seq![seq!['/']]);
        }
    } else if (p.len() == 1 && p[0] == '.') || (p.len() >= 2 && p[0] == '.' && p[1] == '/') {
        let mut here: Vec<char> = Vec::new();
        here.push('.');
        r.push(here);
        proof {
            if p.len() == 1 {
                assert(p@ =~= seq!['.']);
            }
            assert(views(r@) =~= seq![seq!['.']]);
        }
    } else {
        proof {
            if p@ == seq!['.'] {
                assert(p@[0] == '.');
            }
        }
    }
    let ghost root = views(r@);
    let pieces = split_on(p, '/');
    let ghost f = |c: Seq<char>| c.len() > 0 && c != seq!['.'];
    let mut i: usize = 0;
    while i < pieces.len()
        invariant
            i <= pieces.len(),
            f == (|c: Seq<char>| c.len() > 0 && c != seq!['.']),
            views(pieces@) == split(p@, '/'),
            root == (if p@.len() > 0 && p@[0] == '/' {
                seq![seq!['/']]
            } else if p@ == seq!['.'] || (p@.len() >= 2 && p@[0] == '.' && p@[1] == '/') {
                seq![seq!['.']]
            } else {
                Seq::<Seq<char>>::empty()
            }),
            views(r@) == root + views(pieces@).subrange(0, i as int).filter(f),
        decreases pieces.len() - i,
    {
        proof {
            reveal(Seq::filter);
            assert(views(pieces@).subrange(0, i + 1).drop_last() =~= views(pieces@).subrange(0, i as int));
        }
        let c = &pieces[i];
        let dot = c.len() == 1 && c[0] == '.';
        proof {
            if c@.len() == 1 {
                if c@[0] == '.' {
                    assert(c@ =~= seq!['.']);
                } else {
                    assert(seq!['.'][0] == '.');
                }
            } else {
                assert(c@ != seq!['.']);
            }
        }
        if c.len() > 0 && !dot {
            let ghost prev = views(r@);
            let ghost before = views(pieces@).subrange(0, i as int).filter(f);
            r.push(c.clone());
            proof {
                assert(views(r@) =~= prev.push(c@));
                assert(root + before.push(c@) =~= (root + before).push(c@));
            }
        }
        i = i + 1;
    }
    proof {
        assert(views(pieces@).subrange(0, pieces@.len() as int) =~= views(pieces@));
    }
    r
}

/// Whether `path` lies within the directory `base`, component by component.
pub fn is_within(path: &str, base: &str) -> (res: bool)
    ensures
        res == within(path@, base@),
{
    let pc = components_of(chars_of(path).as_slice());
    let bc = components_of(chars_of(base).as_slice());
    if bc.len() > pc.len() {
        return false;
    }
    let mut i: usize = 0;
    while i < bc.len()
        invariant
            i <= bc.len() <= pc.len(),
            views(pc@) == components(path@),
            views(bc@) == components(base@),
            forall|j: int| 0 <= j < i ==> views(pc@)[j] == views(bc@)[j],
        decreases bc.len() - i,
    {
        if !same_chars(pc[i].as_slice(), bc[i].as_slice()) {
            proof {
                assert(views(pc@).subrange(0, views(bc@).len() as int)[i as int] != views(bc@)[i as int]);
            }
            return false;
        }
        i = i + 1;
    }
    proof {
        assert(views(pc@).subrange(0, views(bc@).len() as int) =~= views(bc@));
    }
    true
}

/// Whether two paths are the same path, component by component
/// (`Path == Path`): a trailing or doubled separator makes no difference.
pub fn same_path_components(a: &str, b: &str) -> (res: bool)
    ensures
        res == (components(a@) == components(b@)),
{
    same_component_chars(chars_of(a).as_slice(), chars_of(b).as_slice())
}

/// A path with each `\` written as `/`: on Windows both separate components.
pub open spec fn slashed(p: Seq<char>) -> Seq<char> {
    p.map_values(|c: char| if c == '\\' { '/' } else { c })
}

/// `p` with the letter of a leading ASCII drive (`c:`) in upper case:
/// Windows compares drive prefixes without regard to case.
pub open spec fn drive_upper(p: Seq<char>) -> Seq<char> {
    if p.len() >= 2 && p[1] == ':' && ('a' <= p[0] <= 'z' || 'A' <= p[0] <= 'Z') {
        p.update(0, upper_first(p[0]))
    } else {
        p
    }
}

/// The components of a directory path by its platform's rules: on Windows
/// `\` separates components too and the drive letter's case is ignored.
pub open spec fn dir_components(p: Seq<char>, windows: bool) -> Seq<Seq<char>> {
    if windows {
        components(drive_upper(slashed(p)))
    } else {
        components(p)
    }
}

fn drive_upper_chars(p: Vec<char>) -> (res: Vec<char>)
    ensures
        res@ == drive_upper(p@),
{
    let mut p = p;
    if p.len() >= 2 && p[1] == ':' && (('a' <= p[0] && p[0] <= 'z') || ('A' <= p[0] && p[0] <= 'Z')) {
        let mut one: Vec<char> = Vec::new();
        one.push(p[0]);
        let up = upper_chars(one.as_slice());
        proof {
            assert(one@ =~= seq![p@[0]]);
        }
        let first = if up.len() > 0 {
            up[0]
        } else {
            p[0]
        };
        p.set(0, first);
    }
    p
}

fn slashed_chars(p: &[char]) -> (res: Vec<char>)
    ensures
        res@ == slashed(p@),
{
    let mut r: Vec<char> = Vec::new();
    let mut i: usize = 0;
    while i < p.len()
        invariant
            i <= p.len(),
            r@ == slashed(p@.subrange(0, i as int)),
        decreases p.len() - i,
    {
        if p[i] == '\\' {
            r.push('/');
        } else {
            r.push(p[i]);
        }
        proof {
            assert(slashed(p@.subrange(0, i + 1)) =~= slashed(p@.subrange(0, i as int)).push(r@[i as int]));
        }
        i = i + 1;
    }
    proof {
        assert(p@.subrange(0, p@.len() as int) =~= p@);
    }
    r
}

/// Whether two directory paths are the same directory by their platform's
/// path comparison: component by component; on Windows `\` and `/` both
/// separate components and the drive letter's case is ignored.
pub fn same_dir(a: &str, b: &str, windows: bool) -> (res: bool)
    ensures
        res == (dir_components(a@, windows) == dir_components(b@, windows)),
{
    let ac = chars_of(a);
    let bc = chars_of(b);
    if windows {
        let sa = drive_upper_chars(slashed_chars(ac.as_slice()));
        let sb = drive_upper_chars(slashed_chars(bc.as_slice()));
        same_component_chars(sa.as_slice(), sb.as_slice())
    } else {
        same_component_chars(ac.as_slice(), bc.as_slice())
    }
}

fn same_component_chars(a: &[char], b: &[char]) -> (res: bool)
    ensures
        res == (components(a@) == components(b@)),
{
    let ac = components_of(a);
    let bc = components_of(b);
    if ac.len() != bc.len() {
        proof {
            assert(views(ac@).len() != views(bc@).len());
        }
        return false;
    }
    let mut i: usize = 0;
    while i < ac.len()
        invariant
            i <= ac.len() == bc.len(),
            views(ac@) == components(a@),
            views(bc@) == components(b@),
            forall|j: int| 0 <= j < i ==> views(ac@)[j] == views(bc@)[j],
        decreases ac.len() - i,
    {
        if !same_chars(ac[i].as_slice(), bc[i].as_slice()) {
            proof {
                assert(views(ac@)[i as int] != views(bc@)[i as int]);
            }
            return false;
        }
        i = i + 1;
    }
    proof {
        assert(views(ac@) =~= views(bc@));
    }
    true
}

/// The paths of the stored records that lie within a directory.
pub fn paths_within(files: &Vec<MediaFile>, dir: &str) -> (res: Vec<String>)
    ensures
        crate::text::texts(res@) == paths_where(file_views(files@), |p: Seq<char>| within(p, dir@)),
{
    let ghost keep = |p: Seq<char>| within(p, dir@);
    let ghost f = |x: MediaFileView| keep(x.path);
    let mut r: Vec<String> = Vec::new();
    let mut i: usize = 0;
    while i < files.len()
        invariant
            i <= files.len(),
            keep == (|p: Seq<char>| within(p, dir@)),
            f == (|x: MediaFileView| keep(x.path)),
            crate::text::texts(r@) == file_views(files@).subrange(0, i as int).filter(f).map_values(
                |x: MediaFileView| x.path,
            ),
        decreases files.len() - i,
    {
        proof {
            reveal(Seq::filter);
            assert(file_views(files@).subrange(0, i + 1).drop_last() =~= file_views(files@).subrange(0, i as int));
        }
        let ghost before = file_views(files@).subrange(0, i as int).filter(f);
        if is_within(files[i].path.as_str(), dir) {
            let ghost prev = r@;
            r.push(files[i].path.clone());
            proof {
                assert(crate::text::texts(r@) =~= crate::text::texts(prev).push(files@[i as int].path@));
                assert(before.push(files@[i as int]@).map_values(|x: MediaFileView| x.path) =~= before.map_values(
                    |x: MediaFileView| x.path,
                ).push(files@[i as int].path@));
            }
        }
        i = i + 1;
    }
    proof {
        assert(file_views(files@).subrange(0, files@.len() as int) =~= file_views(files@));
    }
    r
}

// ---------------------------------------------------------------------------
// Telling clients of changes
// ---------------------------------------------------------------------------

/// The next content update identifier: one more, wrapping round at the top.
pub fn next_update_id(id: u32) -> (res: u32)
    ensures
        res == (if id == u32::MAX { 0 } else { (id + 1) as u32 }),
{
    id.wrapping_add(1)
}

/// Whether a deletion changed the library: something left the database or
/// the cache.
pub fn deletion_changed_library(removed_from_database: usize, removed_from_cache: usize) -> (res: bool)
    ensures
        res == (removed_from_database > 0 || removed_from_cache > 0),
{
    removed_from_database > 0 || removed_from_cache > 0
}

} // verus!
