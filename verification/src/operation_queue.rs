//! The bridge between file-system events and the media database: the
//! database operation each event calls for, a queue that keeps one pending
//! operation per path, the reconciliation of a directory scan with the
//! stored records, and the metadata a file's name gives.
use vstd::prelude::*;
use crate::clock::Timestamp;
use crate::database::{name_of_path, MediaFile, MediaFileView};
use crate::library::{components, same_path_components};
use crate::path::{file_name, file_name_of, last_dot, lemma_last_dot};
use crate::text::{chars_of, find, find_seq, string_of, texts, trim, trimmed, slice_chars};
use crate::watcher::{EventView, FileSystemEvent};

verus! {

/// A database operation waiting to be applied.
#[derive(Debug, Clone)]
pub enum QueuedOperation {
    Add(String),
    Update(String),
    Remove(String),
    Move { from: String, to: String },
}

/// The content of a queued operation.
pub enum OperationView {
    Add(Seq<char>),
    Update(Seq<char>),
    Remove(Seq<char>),
    Move(Seq<char>, Seq<char>),
}

impl View for QueuedOperation {
    type V = OperationView;

    open spec fn view(&self) -> OperationView {
        match self {
            QueuedOperation::Add(p) => OperationView::Add(p@),
            QueuedOperation::Update(p) => OperationView::Update(p@),
            QueuedOperation::Remove(p) => OperationView::Remove(p@),
            QueuedOperation::Move { from, to } => OperationView::Move(from@, to@),
        }
    }
}

/// The path an operation is queued under: a move is filed under its
/// destination.
pub open spec fn op_path(o: OperationView) -> Seq<char> {
    match o {
        OperationView::Add(p) => p,
        OperationView::Update(p) => p,
        OperationView::Remove(p) => p,
        OperationView::Move(_, to) => to,
    }
}

/// The key an operation is queued by: the components of its path, so that
/// paths equal as paths (`Path == Path`) share one entry.
pub open spec fn op_key(o: OperationView) -> Seq<Seq<char>> {
    components(op_path(o))
}

/// The operation an event calls for.
pub open spec fn event_operation(e: EventView) -> OperationView {
    match e {
        EventView::Created(p) => OperationView::Add(p),
        EventView::Modified(p) => OperationView::Update(p),
        EventView::Deleted(p) => OperationView::Remove(p),
        EventView::Renamed(from, to) => OperationView::Move(from, to),
    }
}

impl QueuedOperation {
    /// The path this operation is queued under.
    pub fn key(&self) -> (res: String)
        ensures
            res@ == op_path(self@),
    {
        match self {
            QueuedOperation::Add(p) => p.clone(),
            QueuedOperation::Update(p) => p.clone(),
            QueuedOperation::Remove(p) => p.clone(),
            QueuedOperation::Move { from: _, to } => to.clone(),
        }
    }

    /// The operation a file-system event calls for.
    pub fn for_event(event: FileSystemEvent) -> (res: QueuedOperation)
        ensures
            res@ == event_operation(event@),
    {
        match event {
            FileSystemEvent::Created(p) => QueuedOperation::Add(p),
            FileSystemEvent::Modified(p) => QueuedOperation::Update(p),
            FileSystemEvent::Deleted(p) => QueuedOperation::Remove(p),
            FileSystemEvent::Renamed { from, to } => QueuedOperation::Move { from, to },
        }
    }
}

/// The views of a list of operations.
pub open spec fn op_views(s: Seq<QueuedOperation>) -> Seq<OperationView> {
    s.map_values(|o: QueuedOperation| o@)
}

/// The pending operations by path: a later entry for a path wins.
pub open spec fn as_map(s: Seq<OperationView>) -> Map<Seq<Seq<char>>, OperationView>
    decreases s.len(),
{
    if s.len() == 0 {
        Map::empty()
    } else {
        as_map(s.drop_last()).insert(op_key(s.last()), s.last())
    }
}

/// No two entries are filed under the same path.
pub open spec fn distinct_keys(s: Seq<OperationView>) -> bool {
    forall|i: int, j: int| 0 <= i < j < s.len() ==> op_key(s[i]) != op_key(s[j])
}

proof fn lemma_as_map_dom(s: Seq<OperationView>)
    ensures
        forall|k: Seq<Seq<char>>| as_map(s).dom().contains(k) <==> exists|i: int| 0 <= i < s.len() && op_key(s[i]) == k,
    decreases s.len(),
{
    if s.len() > 0 {
        let p = s.drop_last();
        lemma_as_map_dom(p);
        assert forall|k: Seq<Seq<char>>| as_map(s).dom().contains(k) <==> exists|i: int| 0 <= i < s.len() && op_key(s[i]) == k by {
            if as_map(p).dom().contains(k) {
                let i = choose|i: int| 0 <= i < p.len() && op_key(p[i]) == k;
                assert(s[i] == p[i]);
            }
            if exists|i: int| 0 <= i < s.len() && op_key(s[i]) == k {
                let i = choose|i: int| 0 <= i < s.len() && op_key(s[i]) == k;
                if i < s.len() - 1 {
                    assert(p[i] == s[i]);
                }
            }
        }
    }
}

proof fn lemma_as_map_replace(s: Seq<OperationView>, i: int, o: OperationView)
    requires
        0 <= i < s.len(),
        distinct_keys(s),
        op_key(s[i]) == op_key(o),
    ensures
        as_map(s.update(i, o)) == as_map(s).insert(op_key(o), o),
    decreases s.len(),
{
    let p = s.drop_last();
    let n = s.len() - 1;
    if i == n {
        assert(s.update(i, o).drop_last() =~= p);
        assert(as_map(s.update(i, o)) =~= as_map(s).insert(op_key(o), o));
    } else {
        assert(s.update(i, o).drop_last() =~= p.update(i, o));
        assert(distinct_keys(p));
        lemma_as_map_replace(p, i, o);
        assert(op_key(s[n]) != op_key(s[i]));
        assert(s.update(i, o).last() == s.last());
        assert(as_map(s.update(i, o)) =~= as_map(s).insert(op_key(o), o));
    }
}

/// A queue of pending database operations, at most one per path.
pub struct OperationQueue {
    ops: Vec<QueuedOperation>,
}

impl OperationQueue {
    #[verifier::type_invariant]
    spec fn keys_distinct(self) -> bool {
        distinct_keys(op_views(self.ops@))
    }

    /// The pending operation of each path.
    pub closed spec fn pending(self) -> Map<Seq<Seq<char>>, OperationView> {
        as_map(op_views(self.ops@))
    }

    /// An empty queue.
    pub fn new() -> (res: OperationQueue)
        ensures
            res.pending() == Map::<Seq<Seq<char>>, OperationView>::empty(),
    {
        OperationQueue { ops: Vec::new() }
    }

    /// The number of pending operations.
    pub fn len(&self) -> (res: usize)
        ensures
            res == self.pending().len(),
    {
        proof {
            use_type_invariant(self);
            lemma_distinct_len(op_views(self.ops@));
        }
        self.ops.len()
    }

    /// Queue an operation; it replaces whatever was pending for its path.
    pub fn enqueue(&mut self, op: QueuedOperation)
        ensures
            final(self).pending() == old(self).pending().insert(op_key(op@), op@),
    {
        proof {
            use_type_invariant(&*self);
        }
        let key = op.key();
        let mut ops: Vec<QueuedOperation> = Vec::new();
        std::mem::swap(&mut ops, &mut self.ops);
        let ghost s = op_views(ops@);
        let mut i: usize = 0;
        while i < ops.len()
            invariant
                i <= ops.len(),
                s == op_views(ops@),
                as_map(s) == old(self).pending(),
                distinct_keys(s),
                components(key@) == op_key(op@),
                forall|j: int| 0 <= j < i ==> op_key(#[trigger] s[j]) != op_key(op@),
            decreases ops.len() - i,
        {
            let k = ops[i].key();
            if same_path_components(k.as_str(), key.as_str()) {
                proof {
                    lemma_as_map_replace(s, i as int, op@);
                    assert(op_views(ops@.update(i as int, op)) =~= s.update(i as int, op@));
                    assert forall|a: int, b: int| 0 <= a < b < s.len() implies op_key(s.update(i as int, op@)[a])
                        != op_key(s.update(i as int, op@)[b]) by {
                        assert(op_key(s[a]) != op_key(s[b]));
                    }
                }
                ops.set(i, op);
                self.ops = ops;
                return;
            }
            i = i + 1;
        }
        proof {
            assert(op_views(ops@.push(op)) =~= s.push(op@));
            assert(s.push(op@).drop_last() =~= s);
            assert forall|a: int, b: int| 0 <= a < b < s.len() + 1 implies op_key(s.push(op@)[a]) != op_key(
                s.push(op@)[b],
            ) by {
                if b < s.len() {
                    assert(op_key(s[a]) != op_key(s[b]));
                }
            }
        }
        ops.push(op);
        self.ops = ops;
    }

    /// Queue the operation a file-system event calls for.
    pub fn record_event(&mut self, event: FileSystemEvent)
        ensures
            final(self).pending() == old(self).pending().insert(
                op_key(event_operation(event@)),
                event_operation(event@),
            ),
    {
        let op = QueuedOperation::for_event(event);
        self.enqueue(op);
    }

    /// Take every pending operation, leaving the queue empty.
    pub fn drain(&mut self) -> (res: Vec<QueuedOperation>)
        ensures
            final(self).pending() == Map::<Seq<Seq<char>>, OperationView>::empty(),
            distinct_keys(op_views(res@)),
            as_map(op_views(res@)) == old(self).pending(),
    {
        proof {
            use_type_invariant(&*self);
        }
        let mut out: Vec<QueuedOperation> = Vec::new();
        std::mem::swap(&mut out, &mut self.ops);
        proof {
            assert(op_views(self.ops@) =~= Seq::<OperationView>::empty());
        }
        out
    }
}

proof fn lemma_distinct_len(s: Seq<OperationView>)
    requires
        distinct_keys(s),
    ensures
        as_map(s).len() == s.len(),
        as_map(s).dom().finite(),
    decreases s.len(),
{
    if s.len() > 0 {
        let p = s.drop_last();
        assert(distinct_keys(p));
        lemma_distinct_len(p);
        lemma_as_map_dom(p);
        if as_map(p).dom().contains(op_key(s.last())) {
            let i = choose|i: int| 0 <= i < p.len() && op_key(p[i]) == op_key(s.last());
            assert(op_key(s[i]) != op_key(s[s.len() - 1]));
        }
    }
}

/// A later operation for a path replaces the earlier one: after queueing
/// `a` and then `b` under the same path, only `b` is pending for it, and the
/// other paths keep what they had.
pub proof fn law_latest_operation_wins(m: Map<Seq<Seq<char>>, OperationView>, a: OperationView, b: OperationView)
    requires
        op_key(a) == op_key(b),
    ensures
        m.insert(op_key(a), a).insert(op_key(b), b) == m.insert(op_key(b), b),
{
    assert(m.insert(op_key(a), a).insert(op_key(b), b) =~= m.insert(op_key(b), b));
}

// ---------------------------------------------------------------------------
// Reconciling a scan with the stored records
// ---------------------------------------------------------------------------

/// Whether `other` holds the path `p`, compared part by part.
pub open spec fn holds_path(other: Seq<Seq<char>>, p: Seq<char>) -> bool {
    exists|j: int| 0 <= j < other.len() && components(#[trigger] other[j]) == components(p)
}

/// The paths of `src` that `other` does not hold, in order.
pub open spec fn missing_from(src: Seq<Seq<char>>, other: Seq<Seq<char>>) -> Seq<Seq<char>> {
    src.filter(|x: Seq<char>| !holds_path(other, x))
}

fn holds_path_exec(other: &Vec<String>, p: &String) -> (res: bool)
    ensures
        res == holds_path(texts(other@), p@),
{
    let mut j: usize = 0;
    while j < other.len()
        invariant
            j <= other.len(),
            forall|t: int| 0 <= t < j ==> components((#[trigger] other@[t])@) != components(p@),
        decreases other.len() - j,
    {
        if same_path_components(other[j].as_str(), p.as_str()) {
            assert(texts(other@)[j as int] == other@[j as int]@);
            return true;
        }
        j = j + 1;
    }
    proof {
        if holds_path(texts(other@), p@) {
            let t = choose|t: int| 0 <= t < texts(other@).len() && components(#[trigger] texts(other@)[t]) == components(p@);
            assert(texts(other@)[t] == other@[t]@);
        }
    }
    false
}

fn absent_paths(src: &Vec<String>, other: &Vec<String>) -> (res: Vec<String>)
    ensures
        texts(res@) == missing_from(texts(src@), texts(other@)),
{
    let ghost f = |x: Seq<char>| !holds_path(texts(other@), x);
    let mut r: Vec<String> = Vec::new();
    let mut i: usize = 0;
    while i < src.len()
        invariant
            i <= src.len(),
            f == (|x: Seq<char>| !holds_path(texts(other@), x)),
            texts(r@) == texts(src@).subrange(0, i as int).filter(f),
        decreases src.len() - i,
    {
        proof {
            reveal(Seq::filter);
            assert(texts(src@).subrange(0, i + 1).drop_last() =~= texts(src@).subrange(0, i as int));
        }
        if !holds_path_exec(other, &src[i]) {
            let ghost prev = r@;
            r.push(src[i].clone());
            proof {
                assert(texts(r@) =~= texts(prev).push(src@[i as int]@));
            }
        }
        i = i + 1;
    }
    proof {
        assert(texts(src@).subrange(0, src@.len() as int) =~= texts(src@));
    }
    r
}

/// How a directory scan is reconciled with the records stored for that
/// directory: the found paths with no record are added, and the records
/// whose path was not found are removed, each list in its original order.
pub fn initial_sync_plan(found: &Vec<String>, existing: &Vec<String>) -> (res: (Vec<String>, Vec<String>))
    ensures
        texts(res.0@) == missing_from(texts(found@), texts(existing@)),
        texts(res.1@) == missing_from(texts(existing@), texts(found@)),
{
    (absent_paths(found, existing), absent_paths(existing, found))
}

// ---------------------------------------------------------------------------
// Metadata from a file's name
// ---------------------------------------------------------------------------

/// The stem of a file name (`Path::file_stem`): the name without its
/// extension; a name whose only dot is its first character is all stem.
pub open spec fn name_stem(name: Seq<char>) -> Seq<char> {
    let k = last_dot(name);
    if k > 0 {
        name.subrange(0, k)
    } else {
        name
    }
}

/// The stem of a path's final component.
pub open spec fn file_stem(p: Seq<char>) -> Option<Seq<char>> {
    match file_name(p, false) {
        Some(n) => Some(name_stem(n)),
        None => None,
    }
}

/// The title and artist a stem gives: `artist - title` splits at the first
/// ` - `, both sides trimmed, and sets both; otherwise the whole stem is the
/// title and the artist stays as it was.
pub open spec fn named(f: MediaFileView, p: Seq<char>) -> MediaFileView {
    match file_stem(p) {
        Some(stem) => match find(stem, " - "@) {
            Some(k) => MediaFileView {
                artist: Some(trim(stem.subrange(0, k))),
                title: Some(trim(stem.subrange(k + 3, stem.len() as int))),
                ..f
            },
            None => MediaFileView { title: Some(stem), ..f },
        },
        None => f,
    }
}

/// Fill in a record's title, and its artist where the name has one, from
/// the file's name.
pub fn apply_name_metadata(file: &mut MediaFile)
    ensures
        final(file)@ == named(old(file)@, old(file).path@),
{
    let p = chars_of(file.path.as_str());
    let name = match file_name_of(p.as_slice(), false) {
        Some(n) => n,
        None => {
            return;
        },
    };
    proof {
        lemma_last_dot(name@);
    }
    let stem = match crate::path::find_last_dot(name.as_slice()) {
        Some(k) => if k > 0 {
            slice_chars(name.as_slice(), 0, k)
        } else {
            name
        },
        None => name,
    };
    let sep = chars_of(" - ");
    match find_seq(stem.as_slice(), sep.as_slice()) {
        Some(k) => {
            proof {
                crate::text::lemma_find(stem@, sep@);
                reveal_strlit(" - ");
            }
            assert(k + 3 <= stem.len());
            let a = trimmed(slice_chars(stem.as_slice(), 0, k).as_slice());
            let t = trimmed(slice_chars(stem.as_slice(), k + 3, stem.len()).as_slice());
            file.artist = Some(string_of(a.as_slice()));
            file.title = Some(string_of(t.as_slice()));
        },
        None => {
            file.title = Some(string_of(stem.as_slice()));
        },
    }
}

/// The record of a file moved to `to`: its path and name follow the move
/// and it was last updated at `at`; everything else is kept.
pub fn relocated(existing: &MediaFile, to: &str, at: Timestamp) -> (res: MediaFile)
    ensures
        res@ == (MediaFileView { path: to@, filename: name_of_path(to@), updated_at: at, ..existing@ }),
{
    let mut r = existing.copy();
    r.path = crate::text::owned(to);
    r.filename = match file_name_of(chars_of(to).as_slice(), false) {
        Some(n) => string_of(n.as_slice()),
        None => String::new(),
    };
    r.updated_at = at;
    r
}

/// What is done with a path the watcher reported.
#[derive(Debug, Clone, Copy, PartialEq, Eq, Structural)]
pub enum PathAction {
    /// Nothing: the path is gone or is not media.
    Ignore,
    /// Scan the new directory and add each media file in it.
    ScanDirectory,
    /// Store a record for the new media file.
    Store,
    /// Refresh the stored record's metadata.
    Refresh,
    /// Remove the records of the path and of everything under it.
    Remove,
    /// Move the stored record to the destination.
    Relocate,
}

/// What a created path calls for: nothing if it is gone already, a scan if
/// it is a directory, nothing if it is not media, a refresh if a record
/// exists for it, else a new record.
pub open spec fn creation_action(exists: bool, is_dir: bool, is_media: bool, known: bool) -> PathAction {
    if !exists {
        PathAction::Ignore
    } else if is_dir {
        PathAction::ScanDirectory
    } else if !is_media {
        PathAction::Ignore
    } else if known {
        PathAction::Refresh
    } else {
        PathAction::Store
    }
}

/// What a changed path calls for: removal if it is gone, a refresh if a
/// record exists for it, else what a creation would call for.
pub open spec fn change_action(exists: bool, is_dir: bool, is_media: bool, known: bool) -> PathAction {
    if !exists {
        PathAction::Remove
    } else if known {
        PathAction::Refresh
    } else {
        creation_action(true, is_dir, is_media, false)
    }
}

/// What a move calls for: removal of the source if the destination is
/// gone, moving the record if the source had one, else what a creation of
/// the destination would call for.
pub open spec fn move_action(
    destination_exists: bool,
    source_known: bool,
    is_dir: bool,
    is_media: bool,
    destination_known: bool,
) -> PathAction {
    if !destination_exists {
        PathAction::Remove
    } else if source_known {
        PathAction::Relocate
    } else {
        creation_action(true, is_dir, is_media, destination_known)
    }
}

/// The action for a path reported created, from what is known of it.
pub fn action_for_creation(exists: bool, is_dir: bool, is_media: bool, known: bool) -> (res: PathAction)
    ensures
        res == creation_action(exists, is_dir, is_media, known),
{
    if !exists {
        PathAction::Ignore
    } else if is_dir {
        PathAction::ScanDirectory
    } else if !is_media {
        PathAction::Ignore
    } else if known {
        PathAction::Refresh
    } else {
        PathAction::Store
    }
}

/// The action for a path reported changed, from what is known of it.
pub fn action_for_change(exists: bool, is_dir: bool, is_media: bool, known: bool) -> (res: PathAction)
    ensures
        res == change_action(exists, is_dir, is_media, known),
{
    if !exists {
        PathAction::Remove
    } else if known {
        PathAction::Refresh
    } else {
        action_for_creation(true, is_dir, is_media, false)
    }
}

/// The action for a move, from what is known of its two ends.
pub fn action_for_move(
    destination_exists: bool,
    source_known: bool,
    is_dir: bool,
    is_media: bool,
    destination_known: bool,
) -> (res: PathAction)
    ensures
        res == move_action(destination_exists, source_known, is_dir, is_media, destination_known),
{
    if !destination_exists {
        PathAction::Remove
    } else if source_known {
        PathAction::Relocate
    } else {
        action_for_creation(true, is_dir, is_media, destination_known)
    }
}

/// A path that already has a record never gets a second one: whether it is
/// reported created, changed, or as the destination of a move, handling it
/// does not store a new record.
pub proof fn law_known_paths_are_never_stored_twice(
    exists: bool,
    is_dir: bool,
    is_media: bool,
    source_exists_in_store: bool,
)
    ensures
        creation_action(exists, is_dir, is_media, true) != PathAction::Store,
        change_action(exists, is_dir, is_media, true) != PathAction::Store,
        move_action(exists, source_exists_in_store, is_dir, is_media, true) != PathAction::Store,
{
}

} // verus!
