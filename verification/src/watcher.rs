//! File-system change events for media files: which paths count as media,
//! how raw watcher notifications become events, and the per-path queue of
//! database operations that the events lead to.
use vstd::prelude::*;
use crate::filesystem::media_type;
use crate::path::{extension, extension_of};
use crate::text::{chars_of, eq_str, lower_chars};

verus! {

/// Events that can occur in the file system for media files.
#[derive(Debug, Clone)]
pub enum FileSystemEvent {
    /// A new file was created.
    Created(String),
    /// An existing file was modified.
    Modified(String),
    /// A file was deleted.
    Deleted(String),
    /// A file was renamed or moved.
    Renamed { from: String, to: String },
}

/// The content of a file-system event.
pub enum EventView {
    Created(Seq<char>),
    Modified(Seq<char>),
    Deleted(Seq<char>),
    Renamed(Seq<char>, Seq<char>),
}

impl View for FileSystemEvent {
    type V = EventView;

    open spec fn view(&self) -> EventView {
        match self {
            FileSystemEvent::Created(p) => EventView::Created(p@),
            FileSystemEvent::Modified(p) => EventView::Modified(p@),
            FileSystemEvent::Deleted(p) => EventView::Deleted(p@),
            FileSystemEvent::Renamed { from, to } => EventView::Renamed(from@, to@),
        }
    }
}

/// The views of a list of events.
pub open spec fn event_views(s: Seq<FileSystemEvent>) -> Seq<EventView> {
    s.map_values(|e: FileSystemEvent| e@)
}

// ---------------------------------------------------------------------------
// Media paths
// ---------------------------------------------------------------------------

/// The lower-case extensions the watcher treats as media.
pub open spec fn watched_extension(e: Seq<char>) -> bool {
    ||| e == "mp4"@ || e == "mkv"@ || e == "avi"@ || e == "mov"@ || e == "wmv"@
    ||| e == "flv"@ || e == "webm"@ || e == "m4v"@ || e == "3gp"@ || e == "mpg"@
    ||| e == "mpeg"@ || e == "mp3"@ || e == "flac"@ || e == "wav"@ || e == "aac"@
    ||| e == "ogg"@ || e == "wma"@ || e == "m4a"@ || e == "opus"@ || e == "aiff"@
    ||| e == "jpg"@ || e == "jpeg"@ || e == "png"@ || e == "gif"@ || e == "bmp"@
    ||| e == "tiff"@ || e == "webp"@ || e == "svg"@
}

/// A path is a media path when its extension, in lower case, is watched.
pub open spec fn media_path(p: Seq<char>) -> bool {
    match extension(p, false) {
        Some(e) => watched_extension(crate::text::lowercase_of(e)),
        None => false,
    }
}

/// The watcher treats as media exactly the files the server can serve with a
/// media type: a path is a media path when, and only when, its extension in
/// lower case has a MIME type in the table of supported media types.
pub proof fn law_watched_paths_are_the_served_media(p: Seq<char>)
    ensures
        media_path(p) <==> match extension(p, false) {
            Some(e) => media_type(crate::text::lowercase_of(e)) is Some,
            None => false,
        },
{
}

fn is_watched_extension(e: &[char]) -> (res: bool)
    ensures
        res == watched_extension(e@),
{
    eq_str(e, "mp4") || eq_str(e, "mkv") || eq_str(e, "avi") || eq_str(e, "mov") || eq_str(e, "wmv")
        || eq_str(e, "flv") || eq_str(e, "webm") || eq_str(e, "m4v") || eq_str(e, "3gp") || eq_str(
        e,
        "mpg",
    ) || eq_str(e, "mpeg") || eq_str(e, "mp3") || eq_str(e, "flac") || eq_str(e, "wav") || eq_str(
        e,
        "aac",
    ) || eq_str(e, "ogg") || eq_str(e, "wma") || eq_str(e, "m4a") || eq_str(e, "opus") || eq_str(
        e,
        "aiff",
    ) || eq_str(e, "jpg") || eq_str(e, "jpeg") || eq_str(e, "png") || eq_str(e, "gif") || eq_str(
        e,
        "bmp",
    ) || eq_str(e, "tiff") || eq_str(e, "webp") || eq_str(e, "svg")
}

/// Whether a path names a supported media file, judged by its extension
/// in any letter case.
pub fn is_media_file(path: &str) -> (res: bool)
    ensures
        res == media_path(path@),
{
    let p = chars_of(path);
    match extension_of(p.as_slice(), false) {
        Some(e) => {
            let lower = lower_chars(e.as_slice());
            is_watched_extension(lower.as_slice())
        },
        None => false,
    }
}

// ---------------------------------------------------------------------------
// Raw notifications
// ---------------------------------------------------------------------------

/// The kinds of notification a file-system watcher reports.
#[derive(Debug, Clone, Copy, PartialEq, Eq, Structural)]
pub enum WatchEventKind {
    Any,
    Access,
    Create,
    Modify,
    Remove,
    Other,
}

/// A path named by a notification, with whether it was a directory when the
/// notification was handled.
#[derive(Debug, Clone)]
pub struct WatchedPath {
    pub path: String,
    pub is_dir: bool,
}

/// A notification: its kind and the paths it names.
#[derive(Debug, Clone)]
pub struct RawEvent {
    pub kind: WatchEventKind,
    pub paths: Vec<WatchedPath>,
}

/// The event one path of a notification of `kind` gives: creations and
/// removals of directories and media files; any other change to a media
/// file counts as a modification.
pub open spec fn path_event(kind: WatchEventKind, p: Seq<char>, is_dir: bool) -> Option<EventView> {
    match kind {
        WatchEventKind::Create => if is_dir || media_path(p) {
            Some(EventView::Created(p))
        } else {
            None
        },
        WatchEventKind::Remove => if is_dir || media_path(p) {
            Some(EventView::Deleted(p))
        } else {
            None
        },
        _ => if media_path(p) {
            Some(EventView::Modified(p))
        } else {
            None
        },
    }
}

/// The events of one notification, path by path.
pub open spec fn notification_events(kind: WatchEventKind, paths: Seq<WatchedPath>) -> Seq<EventView>
    decreases paths.len(),
{
    if paths.len() == 0 {
        Seq::empty()
    } else {
        let prev = notification_events(kind, paths.drop_last());
        match path_event(kind, paths.last().path@, paths.last().is_dir) {
            Some(e) => prev.push(e),
            None => prev,
        }
    }
}

/// The events of a batch of notifications, in order.
pub open spec fn converted(events: Seq<RawEvent>) -> Seq<EventView>
    decreases events.len(),
{
    if events.len() == 0 {
        Seq::empty()
    } else {
        converted(events.drop_last()) + notification_events(events.last().kind, events.last().paths@)
    }
}

/// A notification is relevant when one of its paths is a directory or a
/// media file.
pub open spec fn relevant(e: RawEvent) -> bool {
    exists|i: int| 0 <= i < e.paths@.len() && (e.paths@[i].is_dir || media_path(e.paths@[i].path@))
}

fn event_of_path(kind: WatchEventKind, p: &WatchedPath) -> (res: Option<FileSystemEvent>)
    ensures
        match path_event(kind, p.path@, p.is_dir) {
            Some(e) => res matches Some(r) && r@ == e,
            None => res is None,
        },
{
    let media = is_media_file(p.path.as_str());
    match kind {
        WatchEventKind::Create => if p.is_dir || media {
            Some(FileSystemEvent::Created(p.path.clone()))
        } else {
            None
        },
        WatchEventKind::Remove => if p.is_dir || media {
            Some(FileSystemEvent::Deleted(p.path.clone()))
        } else {
            None
        },
        _ => if media {
            Some(FileSystemEvent::Modified(p.path.clone()))
        } else {
            None
        },
    }
}

/// Turn a batch of notifications into media events.
pub fn convert_events(events: &Vec<RawEvent>) -> (res: Vec<FileSystemEvent>)
    ensures
        event_views(res@) == converted(events@),
{
    let mut out: Vec<FileSystemEvent> = Vec::new();
    let mut i: usize = 0;
    while i < events.len()
        invariant
            i <= events.len(),
            event_views(out@) == converted(events@.subrange(0, i as int)),
        decreases events.len() - i,
    {
        proof {
            assert(events@.subrange(0, i + 1).drop_last() =~= events@.subrange(0, i as int));
        }
        let ev = &events[i];
        let ghost before = event_views(out@);
        let mut j: usize = 0;
        while j < ev.paths.len()
            invariant
                j <= ev.paths.len(),
                event_views(out@) == before + notification_events(ev.kind, ev.paths@.subrange(0, j as int)),
            decreases ev.paths.len() - j,
        {
            proof {
                assert(ev.paths@.subrange(0, j + 1).drop_last() =~= ev.paths@.subrange(0, j as int));
            }
            let ghost prev = out@;
            match event_of_path(ev.kind, &ev.paths[j]) {
                Some(e) => {
                    out.push(e);
                    proof {
                        assert(event_views(out@) =~= event_views(prev).push(e@));
                    }
                },
                None => {},
            }
            j = j + 1;
        }
        proof {
            assert(ev.paths@.subrange(0, ev.paths@.len() as int) =~= ev.paths@);
        }
        i = i + 1;
    }
    proof {
        assert(events@.subrange(0, events@.len() as int) =~= events@);
    }
    out
}

/// Whether a notification names a directory or a media file.
pub fn is_relevant(event: &RawEvent) -> (res: bool)
    ensures
        res == relevant(*event),
{
    let mut i: usize = 0;
    while i < event.paths.len()
        invariant
            i <= event.paths.len(),
            forall|j: int| 0 <= j < i ==> !(event.paths@[j].is_dir || media_path(event.paths@[j].path@)),
        decreases event.paths.len() - i,
    {
        if event.paths[i].is_dir || is_media_file(event.paths[i].path.as_str()) {
            return true;
        }
        i = i + 1;
    }
    false
}

/// An irrelevant notification gives no events: filtering such
/// notifications out before conversion changes nothing.
pub proof fn law_irrelevant_notifications_give_no_events(e: RawEvent)
    requires
        !relevant(e),
    ensures
        notification_events(e.kind, e.paths@) == Seq::<EventView>::empty(),
{
    lemma_no_events(e.kind, e.paths@);
}

/// Keeping only the relevant notifications of a batch gives the same events
/// as converting the whole batch.
pub proof fn law_filtering_keeps_conversion(events: Seq<RawEvent>)
    ensures
        converted(events.filter(|e: RawEvent| relevant(e))) == converted(events),
    decreases events.len(),
{
    reveal(Seq::filter);
    if events.len() > 0 {
        let f = |e: RawEvent| relevant(e);
        law_filtering_keeps_conversion(events.drop_last());
        let sub = events.drop_last().filter(f);
        let x = events.last();
        if relevant(x) {
            assert(sub.push(x).drop_last() =~= sub);
        } else {
            law_irrelevant_notifications_give_no_events(x);
            assert(converted(events) =~= converted(events.drop_last()));
        }
    }
}

proof fn lemma_no_events(kind: WatchEventKind, paths: Seq<WatchedPath>)
    requires
        forall|i: int| 0 <= i < paths.len() ==> !(paths[i].is_dir || media_path(paths[i].path@)),
    ensures
        notification_events(kind, paths) == Seq::<EventView>::empty(),
    decreases paths.len(),
{
    if paths.len() > 0 {
        lemma_no_events(kind, paths.drop_last());
        assert(!(paths[paths.len() - 1].is_dir || media_path(paths[paths.len() - 1].path@)));
    }
}

} // verus!
