//! Answering a ContentDirectory Browse request: which folders and files an
//! object id lists under the media root, in what order, and the DIDL-Lite
//! document in the SOAP response.
use vstd::prelude::*;
use crate::database::{file_views, MediaFile, MediaFileView};
use crate::library::{components, components_of, within};
use crate::linux_net::begins_with;
use crate::ordering::{goes_before, is_permutation, lemma_lex_refl, lex_le, sorted_by_keys, stable_order};
use crate::text::{chars_of, lower_chars, lowercase_of, same_chars, slice_chars, starts_with, views};

verus! {

// ---------------------------------------------------------------------------
// What an object id selects
// ---------------------------------------------------------------------------

/// `s` without its leading `c` characters.
pub open spec fn trim_leading(s: Seq<char>, c: char) -> Seq<char>
    decreases s.len(),
{
    if s.len() > 0 && s[0] == c {
        trim_leading(s.drop_first(), c)
    } else {
        s
    }
}

/// `s` without its trailing `c` characters.
pub open spec fn trim_trailing(s: Seq<char>, c: char) -> Seq<char>
    decreases s.len(),
{
    if s.len() > 0 && s.last() == c {
        trim_trailing(s.drop_last(), c)
    } else {
        s
    }
}

/// The MIME prefix and the folder path an object id selects: `video`,
/// `audio` and `image` ids select their kind and the path after the kind's
/// name; any other id selects every file at the top of the media root.
pub open spec fn browse_target(id: Seq<char>) -> (Seq<char>, Seq<char>) {
    if starts_with(id, "video"@) {
        ("video/"@, trim_leading(id.subrange(5, id.len() as int), '/'))
    } else if starts_with(id, "audio"@) {
        ("audio/"@, trim_leading(id.subrange(5, id.len() as int), '/'))
    } else if starts_with(id, "image"@) {
        ("image/"@, trim_leading(id.subrange(5, id.len() as int), '/'))
    } else {
        (Seq::empty(), Seq::empty())
    }
}

/// The folder components, below the media root, of the folder holding a
/// file; none when the file is not strictly below the root.
pub open spec fn folder_of(path: Seq<char>, root: Seq<char>) -> Option<Seq<Seq<char>>> {
    let f = components(path);
    let r = components(root);
    if within(path, root) && f.len() > r.len() {
        Some(f.subrange(r.len() as int, f.len() - 1))
    } else {
        None
    }
}

/// A file is listed as an item of the browsed folder: it is of the selected
/// kind and lies directly in that folder.
pub open spec fn listed_item(f: MediaFileView, root: Seq<char>, id: Seq<char>) -> bool {
    starts_with(f.mime_type, browse_target(id).0) && folder_of(f.path, root) == Some(
        components(browse_target(id).1),
    )
}

/// The sub-folder of the browsed folder that a file of the selected kind
/// lies deeper within, if any.
pub open spec fn listed_folder(f: MediaFileView, root: Seq<char>, id: Seq<char>) -> Option<Seq<char>> {
    let b = components(browse_target(id).1);
    if !starts_with(f.mime_type, browse_target(id).0) {
        None
    } else {
        match folder_of(f.path, root) {
            Some(p) => if p != b && b.len() < p.len() && p.subrange(0, b.len() as int) == b && p[b.len() as int]
                != ".."@ {
                Some(p[b.len() as int])
            } else {
                None
            },
            None => None,
        }
    }
}

/// What a Browse request lists: the folders, each once, ordered by their
/// lower-case names; the items, as positions in `files`, ordered by their
/// lower-case file names with ties in their order in `files`.
pub open spec fn listing_ok(
    files: Seq<MediaFileView>,
    root: Seq<char>,
    id: Seq<char>,
    folders: Seq<Seq<char>>,
    items: Seq<usize>,
) -> bool {
    &&& folders.no_duplicates()
    &&& forall|x: Seq<char>| folders.contains(x) <==> exists|i: int|
        0 <= i < files.len() && listed_folder(files[i], root, id) == Some(x)
    &&& forall|a: int, b: int| 0 <= a < b < folders.len() ==> lex_le(
        lowercase_of(folders[a]),
        lowercase_of(folders[b]),
    )
    &&& exists|cands: Seq<usize>, ord: Seq<usize>|
        {
            &&& cands == item_positions(files, root, id, files.len())
            &&& is_permutation(ord, cands.len())
            &&& sorted_by_keys(
                ord_keys(files, cands),
                ord,
            )
            &&& items == ord.map_values(|o: usize| cands[o as int])
        }
}

/// The positions below `n` of the files listed as items, in order.
pub open spec fn item_positions(files: Seq<MediaFileView>, root: Seq<char>, id: Seq<char>, n: nat) -> Seq<usize>
    decreases n,
{
    if n == 0 {
        Seq::empty()
    } else {
        let r = item_positions(files, root, id, (n - 1) as nat);
        if listed_item(files[n - 1], root, id) {
            r.push((n - 1) as usize)
        } else {
            r
        }
    }
}

/// The lower-case file names of the files at `cands`.
pub open spec fn ord_keys(files: Seq<MediaFileView>, cands: Seq<usize>) -> Seq<Seq<char>> {
    cands.map_values(|c: usize| lowercase_of(files[c as int].filename))
}

// ---------------------------------------------------------------------------
// Working out the listing
// ---------------------------------------------------------------------------

fn trim_leading_exec(s: &[char], c: char) -> (res: Vec<char>)
    ensures
        res@ == trim_leading(s@, c),
{
    let mut a: usize = 0;
    proof {
        assert(s@.subrange(0, s@.len() as int) =~= s@);
    }
    while a < s.len() && s[a] == c
        invariant
            a <= s.len(),
            trim_leading(s@, c) == trim_leading(s@.subrange(a as int, s@.len() as int), c),
        decreases s.len() - a,
    {
        proof {
            assert(s@.subrange(a as int, s@.len() as int).drop_first() =~= s@.subrange(a + 1, s@.len() as int));
        }
        a = a + 1;
    }
    slice_chars(s, a, s.len())
}

/// The views of two component lists are equal.
fn comps_equal(a: &[Vec<char>], b: &[Vec<char>]) -> (res: bool)
    ensures
        res == (views(a@) == views(b@)),
{
    if a.len() != b.len() {
        proof {
            assert(views(a@).len() != views(b@).len());
        }
        return false;
    }
    let mut i: usize = 0;
    while i < a.len()
        invariant
            i <= a.len(),
            a.len() == b.len(),
            forall|j: int| 0 <= j < i ==> views(a@)[j] == views(b@)[j],
        decreases a.len() - i,
    {
        if !same_chars(a[i].as_slice(), b[i].as_slice()) {
            proof {
                assert(views(a@)[i as int] != views(b@)[i as int]);
            }
            return false;
        }
        i = i + 1;
    }
    proof {
        assert(views(a@) =~= views(b@));
    }
    true
}

/// `b` begins `p`.
fn comps_prefix(b: &[Vec<char>], p: &[Vec<char>]) -> (res: bool)
    ensures
        res == (views(b@).len() <= views(p@).len() && views(p@).subrange(0, views(b@).len() as int) == views(b@)),
{
    if b.len() > p.len() {
        return false;
    }
    let mut i: usize = 0;
    while i < b.len()
        invariant
            i <= b.len() <= p.len(),
            forall|j: int| 0 <= j < i ==> views(p@)[j] == views(b@)[j],
        decreases b.len() - i,
    {
        if !same_chars(p[i].as_slice(), b[i].as_slice()) {
            proof {
                assert(views(p@).subrange(0, views(b@).len() as int)[i as int] != views(b@)[i as int]);
            }
            return false;
        }
        i = i + 1;
    }
    proof {
        assert(views(p@).subrange(0, views(b@).len() as int) =~= views(b@));
    }
    true
}

fn contains_text_chars(list: &Vec<Vec<char>>, x: &[char]) -> (res: bool)
    ensures
        res == views(list@).contains(x@),
{
    let mut i: usize = 0;
    while i < list.len()
        invariant
            i <= list.len(),
            forall|j: int| 0 <= j < i ==> views(list@)[j] != x@,
        decreases list.len() - i,
    {
        if same_chars(list[i].as_slice(), x) {
            proof {
                assert(views(list@)[i as int] == x@);
            }
            return true;
        }
        i = i + 1;
    }
    false
}

/// How one file stands to the browsed folder.
enum Placement {
    Item,
    Folder(Vec<char>),
    Neither,
}

fn place_file(
    f: &MediaFile,
    prefix: &str,
    rc: &Vec<Vec<char>>,
    bc: &Vec<Vec<char>>,
    Ghost(root): Ghost<Seq<char>>,
    Ghost(id): Ghost<Seq<char>>,
) -> (res: Placement)
    requires
        prefix@ == browse_target(id).0,
        views(rc@) == components(root),
        views(bc@) == components(browse_target(id).1),
    ensures
        match res {
            Placement::Item => listed_item(f@, root, id) && listed_folder(f@, root, id) is None,
            Placement::Folder(n) => !listed_item(f@, root, id) && listed_folder(f@, root, id) == Some(n@),
            Placement::Neither => !listed_item(f@, root, id) && listed_folder(f@, root, id) is None,
        },
{
    if !begins_with(chars_of(f.mime_type.as_str()).as_slice(), prefix) {
        return Placement::Neither;
    }
    let fc = components_of(chars_of(f.path.as_str()).as_slice());
    let ghost fv = views(fc@);
    let ghost rv = views(rc@);
    let ghost bv = views(bc@);
    proof {
        assert(fv == components(f.path@));
    }
    if !(rc.len() < fc.len()) || !comps_prefix(rc.as_slice(), fc.as_slice()) {
        return Placement::Neither;
    }
    let mut folder: Vec<Vec<char>> = Vec::new();
    let mut i: usize = rc.len();
    while i < fc.len() - 1
        invariant
            rc.len() <= i <= fc.len() - 1,
            fc.len() > rc.len(),
            fv == views(fc@),
            rv == views(rc@),
            views(folder@) == fv.subrange(rv.len() as int, i as int),
        decreases fc.len() - i,
    {
        let ghost prev = views(folder@);
        folder.push(fc[i].clone());
        proof {
            assert(views(folder@) =~= prev.push(fc@[i as int]@));
            assert(fv[i as int] == fc@[i as int]@);
            assert(views(folder@) =~= fv.subrange(rv.len() as int, i + 1));
        }
        i = i + 1;
    }
    let ghost pv = views(folder@);
    proof {
        assert(folder_of(f.path@, root) == Some(pv));
    }
    if comps_equal(folder.as_slice(), bc.as_slice()) {
        return Placement::Item;
    }
    if bc.len() < folder.len() && comps_prefix(bc.as_slice(), folder.as_slice()) {
        let name = folder[bc.len()].clone();
        proof {
            assert(pv[bv.len() as int] == name@);
            reveal_strlit("..");
        }
        let dots = name.len() == 2 && name[0] == '.' && name[1] == '.';
        proof {
            if dots {
                assert(name@ =~= ".."@);
            } else if name@.len() == 2 {
                assert(".."@[0] == '.' && ".."@[1] == '.');
            }
        }
        if !dots {
            return Placement::Folder(name);
        }
    }
    Placement::Neither
}

/// The object id's kind prefix and folder path.
fn target_of(id: &[char]) -> (res: (&'static str, Vec<char>))
    ensures
        res.0@ == browse_target(id@).0,
        res.1@ == browse_target(id@).1,
{
    if begins_with(id, "video") || begins_with(id, "audio") || begins_with(id, "image") {
        proof {
            reveal_strlit("video");
            reveal_strlit("audio");
            reveal_strlit("image");
        }
        let rest = slice_chars(id, 5, id.len());
        let path = trim_leading_exec(rest.as_slice(), '/');
        if begins_with(id, "video") {
            ("video/", path)
        } else if begins_with(id, "audio") {
            ("audio/", path)
        } else {
            ("image/", path)
        }
    } else {
        proof {
            reveal_strlit("");
            assert(browse_target(id@).1 =~= Seq::<char>::empty());
            assert(""@ =~= Seq::<char>::empty());
        }
        ("", Vec::new())
    }
}

proof fn lemma_extend_folders(
    old_v: Seq<Seq<char>>,
    v: Seq<Seq<char>>,
    fs: Seq<MediaFileView>,
    root: Seq<char>,
    id: Seq<char>,
    i: int,
)
    requires
        0 <= i < fs.len(),
        forall|x: Seq<char>| old_v.contains(x) <==> exists|k: int| 0 <= k < i && listed_folder(fs[k], root, id) == Some(x),
        forall|x: Seq<char>| v.contains(x) <==> (old_v.contains(x) || listed_folder(fs[i], root, id) == Some(x)),
    ensures
        forall|x: Seq<char>| v.contains(x) <==> exists|k: int| 0 <= k < i + 1 && listed_folder(fs[k], root, id) == Some(x),
{
    assert forall|x: Seq<char>| v.contains(x) <==> exists|k: int| 0 <= k < i + 1 && listed_folder(fs[k], root, id) == Some(x) by {
        if exists|k: int| 0 <= k < i + 1 && listed_folder(fs[k], root, id) == Some(x) {
            let k = choose|k: int| 0 <= k < i + 1 && listed_folder(fs[k], root, id) == Some(x);
            if k < i {
                assert(old_v.contains(x));
            }
        }
        if v.contains(x) {
            if old_v.contains(x) {
                let k = choose|k: int| 0 <= k < i && listed_folder(fs[k], root, id) == Some(x);
                assert(0 <= k < i + 1 && listed_folder(fs[k], root, id) == Some(x));
            } else {
                assert(0 <= i < i + 1 && listed_folder(fs[i], root, id) == Some(x));
            }
        }
    }
}

/// Work out what a Browse request for `object_id` lists, given the media
/// files and the media root: the folder names in order, and the positions
/// in `files` of the items in order.
pub fn browse_listing(object_id: &str, files: &Vec<MediaFile>, media_root: &str) -> (res: (Vec<String>, Vec<usize>))
    ensures
        listing_ok(file_views(files@), media_root@, object_id@, crate::text::texts(res.0@), res.1@),
        res.0@.len() + res.1@.len() <= files@.len(),
{
    let ghost fs = file_views(files@);
    let ghost root = media_root@;
    let ghost id = object_id@;
    let (prefix, bpath) = target_of(chars_of(object_id).as_slice());
    let rc = components_of(chars_of(media_root).as_slice());
    let bc = components_of(bpath.as_slice());
    let mut folders: Vec<Vec<char>> = Vec::new();
    let mut cands: Vec<usize> = Vec::new();
    let mut i: usize = 0;
    while i < files.len()
        invariant
            i <= files.len(),
            fs == file_views(files@),
            root == media_root@,
            id == object_id@,
            prefix@ == browse_target(id).0,
            views(rc@) == components(root),
            views(bc@) == components(browse_target(id).1),
            cands@ == item_positions(fs, root, id, i as nat),
            forall|m: int| 0 <= m < cands@.len() ==> cands@[m] < i,
            folders@.len() + cands@.len() <= i,
            views(folders@).no_duplicates(),
            forall|x: Seq<char>| views(folders@).contains(x) <==> exists|k: int|
                0 <= k < i && listed_folder(fs[k], root, id) == Some(x),
        decreases files.len() - i,
    {
        proof {
            assert(fs[i as int] == files@[i as int]@);
        }
        let ghost old_v = views(folders@);
        let ghost lf = listed_folder(fs[i as int], root, id);
        match place_file(&files[i], prefix, &rc, &bc, Ghost(root), Ghost(id)) {
            Placement::Item => {
                cands.push(i);
            },
            Placement::Folder(n) => {
                if !contains_text_chars(&folders, n.as_slice()) {
                    folders.push(n);
                    proof {
                        let v = views(folders@);
                        assert(v =~= old_v.push(n@));
                        assert forall|a: int, b: int| 0 <= a < b < v.len() implies v[a] != v[b] by {
                            if b == old_v.len() {
                                assert(old_v[a] == v[a]);
                                assert(old_v.contains(old_v[a]));
                            } else {
                                assert(old_v[a] != old_v[b]);
                            }
                        }
                        assert forall|x: Seq<char>| v.contains(x) <==> (old_v.contains(x) || lf == Some(x)) by {
                            if v.contains(x) {
                                let a = choose|a: int| 0 <= a < v.len() && v[a] == x;
                                if a < old_v.len() {
                                    assert(old_v[a] == x);
                                }
                            }
                            if old_v.contains(x) {
                                let a = choose|a: int| 0 <= a < old_v.len() && old_v[a] == x;
                                assert(v[a] == x);
                            }
                            if lf == Some(x) {
                                assert(v[old_v.len() as int] == x);
                            }
                        }
                    }
                }
            },
            Placement::Neither => {},
        }
        proof {
            lemma_extend_folders(old_v, views(folders@), fs, root, id, i as int);
        }
        i = i + 1;
    }
    // Order the folders by lower-case name.
    let mut fkeys: Vec<Vec<char>> = Vec::new();
    let mut j: usize = 0;
    while j < folders.len()
        invariant
            j <= folders.len(),
            fkeys@.len() == j,
            forall|k: int| 0 <= k < j ==> fkeys@[k]@ == lowercase_of(folders@[k]@),
        decreases folders.len() - j,
    {
        fkeys.push(lower_chars(folders[j].as_slice()));
        j = j + 1;
    }
    let ford = stable_order(&fkeys);
    let mut names: Vec<String> = Vec::new();
    let mut k: usize = 0;
    while k < ford.len()
        invariant
            k <= ford.len(),
            is_permutation(ford@, folders@.len() as nat),
            names@.len() == k,
            forall|m: int| 0 <= m < k ==> names@[m]@ == folders@[ford@[m] as int]@,
        decreases ford.len() - k,
    {
        names.push(crate::text::string_of(folders[ford[k]].as_slice()));
        k = k + 1;
    }
    // Order the items by lower-case file name.
    let mut ikeys: Vec<Vec<char>> = Vec::new();
    let mut c: usize = 0;
    while c < cands.len()
        invariant
            c <= cands.len(),
            cands@ == item_positions(fs, root, id, files@.len() as nat),
            fs == file_views(files@),
            forall|m: int| 0 <= m < cands@.len() ==> cands@[m] < files@.len(),
            ikeys@.len() == c,
            forall|m: int| 0 <= m < c ==> ikeys@[m]@ == lowercase_of(fs[cands@[m] as int].filename),
        decreases cands.len() - c,
    {
        ikeys.push(lower_chars(chars_of(files[cands[c]].filename.as_str()).as_slice()));
        c = c + 1;
    }
    let iord = stable_order(&ikeys);
    let mut items: Vec<usize> = Vec::new();
    let mut q: usize = 0;
    while q < iord.len()
        invariant
            q <= iord.len(),
            is_permutation(iord@, cands@.len() as nat),
            items@ == iord@.subrange(0, q as int).map_values(|o: usize| cands@[o as int]),
        decreases iord.len() - q,
    {
        items.push(cands[iord[q]]);
        proof {
            assert(iord@.subrange(0, q + 1).map_values(|o: usize| cands@[o as int]) =~= iord@.subrange(
                0,
                q as int,
            ).map_values(|o: usize| cands@[o as int]).push(cands@[iord@[q as int] as int]));
        }
        q = q + 1;
    }
    proof {
        assert(iord@.subrange(0, iord@.len() as int) =~= iord@);
        assert(ikeys@.map_values(|v: Vec<char>| v@) =~= ord_keys(fs, cands@));
        let tn = crate::text::texts(names@);
        let fv = views(folders@);
        let kv = fkeys@.map_values(|v: Vec<char>| v@);
        assert forall|a: int, b: int| 0 <= a < b < tn.len() implies tn[a] != tn[b] by {
            assert(tn[a] == fv[ford@[a] as int]);
            assert(tn[b] == fv[ford@[b] as int]);
        }
        assert forall|x: Seq<char>| tn.contains(x) <==> fv.contains(x) by {
            if tn.contains(x) {
                let a = choose|a: int| 0 <= a < tn.len() && tn[a] == x;
                assert(fv[ford@[a] as int] == x);
            }
            if fv.contains(x) {
                let m = choose|m: int| 0 <= m < fv.len() && fv[m] == x;
                assert(crate::ordering::lists(ford@, m));
                let a = choose|a: int| 0 <= a < ford@.len() && ford@[a] as int == m;
                assert(tn[a] == x);
            }
        }
        assert forall|a: int, b: int| 0 <= a < b < tn.len() implies lex_le(lowercase_of(tn[a]), lowercase_of(tn[b])) by {
            assert(crate::ordering::goes_before(kv, ford@[a] as int, ford@[b] as int));
            assert(kv[ford@[a] as int] == lowercase_of(tn[a]));
            assert(kv[ford@[b] as int] == lowercase_of(tn[b]));
            if kv[ford@[a] as int] == kv[ford@[b] as int] {
                crate::ordering::lemma_lex_refl(kv[ford@[a] as int]);
            }
        }
        assert(exists|cs: Seq<usize>, ord: Seq<usize>|
            {
                &&& cs == item_positions(fs, root, id, fs.len())
                &&& is_permutation(ord, cs.len())
                &&& sorted_by_keys(ord_keys(fs, cs), ord)
                &&& items@ == ord.map_values(|o: usize| cs[o as int])
            }) by {
            assert(cands@ == item_positions(fs, root, id, fs.len()));
        }
    }
    (names, items)
}

// ---------------------------------------------------------------------------
// The response document
// ---------------------------------------------------------------------------

/// A signed number in decimal.
pub open spec fn signed_decimal(n: int) -> Seq<char> {
    if n < 0 {
        "-"@ + crate::text::decimal((-n) as nat)
    } else {
        crate::text::decimal(n as nat)
    }
}

fn push_signed(s: &mut String, n: i64)
    ensures
        final(s)@ == old(s)@ + signed_decimal(n as int),
{
    if n < 0 {
        crate::text::push_str(s, "-");
        let m: u64 = ((-(n + 1)) as u64) + 1;
        crate::text::push_decimal(s, m);
    } else {
        crate::text::push_decimal(s, n as u64);
    }
}

/// The opening of a DIDL-Lite document.
pub open spec fn didl_open() -> Seq<char> {
    "<DIDL-Lite xmlns=\"urn:schemas-upnp-org:metadata-1-0/DIDL-Lite/\" xmlns:dc=\"http://purl.org/dc/elements/1.1/\" xmlns:upnp=\"urn:schemas-upnp-org:metadata-1-0/upnp/\">"@
}

/// The three kind folders listed at the root.
pub open spec fn root_containers() -> Seq<char> {
    "<container id=\"video\" parentID=\"0\" restricted=\"1\"><dc:title>Video</dc:title><upnp:class>object.container</upnp:class></container><container id=\"audio\" parentID=\"0\" restricted=\"1\"><dc:title>Music</dc:title><upnp:class>object.container</upnp:class></container><container id=\"image\" parentID=\"0\" restricted=\"1\"><dc:title>Pictures</dc:title><upnp:class>object.container</upnp:class></container>"@
}

/// One folder entry of a listing.
pub open spec fn container_xml(id: Seq<char>, name: Seq<char>) -> Seq<char> {
    "<container id=\""@ + crate::upnp::xml_escaped(trim_trailing(id, '/') + "/"@ + name) + "\" parentID=\""@
        + crate::upnp::xml_escaped(id) + "\" restricted=\"1\"><dc:title>"@ + crate::upnp::xml_escaped(name)
        + "</dc:title><upnp:class>object.container</upnp:class></container>"@
}

/// The address a file is served at.
pub open spec fn media_url(ip: Seq<char>, port: u16, file_id: int) -> Seq<char> {
    "http://"@ + ip + ":"@ + crate::text::decimal(port as nat) + "/media/"@ + signed_decimal(file_id)
}

/// The identifier a file is listed under: its database id, or 0.
pub open spec fn listed_id(f: MediaFileView) -> int {
    match f.id {
        Some(n) => n as int,
        None => 0,
    }
}

/// One file entry of a listing.
pub open spec fn item_xml(id: Seq<char>, f: MediaFileView, ip: Seq<char>, port: u16) -> Seq<char> {
    "<item id=\""@ + signed_decimal(listed_id(f)) + "\" parentID=\""@ + crate::upnp::xml_escaped(id)
        + "\" restricted=\"1\">\n                    <dc:title>"@ + crate::upnp::xml_escaped(f.filename)
        + "</dc:title>\n                    <upnp:class>"@ + crate::upnp::upnp_class(f.mime_type)
        + "</upnp:class>\n                    <res protocolInfo=\"http-get:*:"@ + f.mime_type + ":*\" size=\""@
        + crate::text::decimal(f.size as nat) + "\">"@ + crate::upnp::xml_escaped(media_url(ip, port, listed_id(f)))
        + "</res>\n                </item>"@
}

/// The folder entries of a listing, in order.
pub open spec fn containers_xml(id: Seq<char>, names: Seq<Seq<char>>) -> Seq<char>
    decreases names.len(),
{
    if names.len() == 0 {
        Seq::empty()
    } else {
        containers_xml(id, names.drop_last()) + container_xml(id, names.last())
    }
}

/// The file entries of a listing, in order.
pub open spec fn items_xml(id: Seq<char>, files: Seq<MediaFileView>, items: Seq<usize>, ip: Seq<char>, port: u16) -> Seq<char>
    decreases items.len(),
{
    if items.len() == 0 {
        Seq::empty()
    } else {
        items_xml(id, files, items.drop_last(), ip, port) + item_xml(id, files[items.last() as int], ip, port)
    }
}

/// The SOAP envelope of a Browse response holding an escaped DIDL-Lite
/// document with `n` entries.
pub open spec fn browse_envelope(didl: Seq<char>, n: nat) -> Seq<char> {
    "<?xml version=\"1.0\" encoding=\"UTF-8\"?>\n<s:Envelope xmlns:s=\"http://schemas.xmlsoap.org/soap/envelope/\" s:encodingStyle=\"http://schemas.xmlsoap.org/soap/encoding/\">\n    <s:Body>\n        <u:BrowseResponse xmlns:u=\"urn:schemas-upnp-org:service:ContentDirectory:1\">\n            <Result>"@
        + crate::upnp::xml_escaped(didl) + "</Result>\n            <NumberReturned>"@ + crate::text::decimal(n)
        + "</NumberReturned>\n            <TotalMatches>"@ + crate::text::decimal(n)
        + "</TotalMatches>\n            <UpdateID>0</UpdateID>\n        </u:BrowseResponse>\n    </s:Body>\n</s:Envelope>"@
}

/// The Browse response for a listing: at the root id `0` the three kind
/// folders, elsewhere the listed folders and then the listed files.
pub open spec fn browse_response(
    id: Seq<char>,
    files: Seq<MediaFileView>,
    folders: Seq<Seq<char>>,
    items: Seq<usize>,
    ip: Seq<char>,
    port: u16,
) -> Seq<char> {
    if id == "0"@ {
        browse_envelope(didl_open() + root_containers() + "</DIDL-Lite>"@, 3)
    } else {
        browse_envelope(
            didl_open() + containers_xml(id, folders) + items_xml(id, files, items, ip, port) + "</DIDL-Lite>"@,
            folders.len() + items.len(),
        )
    }
}

fn trim_trailing_exec(s: &[char], c: char) -> (res: Vec<char>)
    ensures
        res@ == trim_trailing(s@, c),
{
    let mut b: usize = s.len();
    proof {
        assert(s@.subrange(0, s@.len() as int) =~= s@);
    }
    while b > 0 && s[b - 1] == c
        invariant
            b <= s.len(),
            trim_trailing(s@, c) == trim_trailing(s@.subrange(0, b as int), c),
        decreases b,
    {
        proof {
            assert(s@.subrange(0, b as int).drop_last() =~= s@.subrange(0, b - 1));
        }
        b = b - 1;
    }
    slice_chars(s, 0, b)
}

fn push_container(out: &mut String, id: &str, name: &str)
    ensures
        final(out)@ == old(out)@ + container_xml(id@, name@),
{
    let base = trim_trailing_exec(chars_of(id).as_slice(), '/');
    let mut cid = crate::text::string_of(base.as_slice());
    crate::text::push_str(&mut cid, "/");
    crate::text::push_str(&mut cid, name);
    crate::text::push_str(out, "<container id=\"");
    crate::text::push_str(out, crate::upnp::xml_escape(cid.as_str()).as_str());
    crate::text::push_str(out, "\" parentID=\"");
    crate::text::push_str(out, crate::upnp::xml_escape(id).as_str());
    crate::text::push_str(out, "\" restricted=\"1\"><dc:title>");
    crate::text::push_str(out, crate::upnp::xml_escape(name).as_str());
    crate::text::push_str(out, "</dc:title><upnp:class>object.container</upnp:class></container>");
}

fn push_item(out: &mut String, id: &str, f: &MediaFile, ip: &str, port: u16)
    ensures
        final(out)@ == old(out)@ + item_xml(id@, f@, ip@, port),
{
    let file_id: i64 = match f.id {
        Some(n) => n,
        None => 0,
    };
    let mut url = crate::text::owned("http://");
    crate::text::push_str(&mut url, ip);
    crate::text::push_str(&mut url, ":");
    crate::text::push_decimal(&mut url, port as u64);
    crate::text::push_str(&mut url, "/media/");
    push_signed(&mut url, file_id);
    crate::text::push_str(out, "<item id=\"");
    push_signed(out, file_id);
    crate::text::push_str(out, "\" parentID=\"");
    crate::text::push_str(out, crate::upnp::xml_escape(id).as_str());
    crate::text::push_str(out, "\" restricted=\"1\">\n                    <dc:title>");
    crate::text::push_str(out, crate::upnp::xml_escape(f.filename.as_str()).as_str());
    crate::text::push_str(out, "</dc:title>\n                    <upnp:class>");
    crate::text::push_str(out, crate::upnp::get_upnp_class(f.mime_type.as_str()));
    crate::text::push_str(out, "</upnp:class>\n                    <res protocolInfo=\"http-get:*:");
    crate::text::push_str(out, f.mime_type.as_str());
    crate::text::push_str(out, ":*\" size=\"");
    crate::text::push_decimal(out, f.size);
    crate::text::push_str(out, "\">");
    crate::text::push_str(out, crate::upnp::xml_escape(url.as_str()).as_str());
    crate::text::push_str(out, "</res>\n                </item>");
}

/// Write the Browse response for a listing.
pub fn render_browse_response(
    object_id: &str,
    files: &Vec<MediaFile>,
    folders: &Vec<String>,
    items: &Vec<usize>,
    server_ip: &str,
    port: u16,
) -> (res: String)
    requires
        forall|k: int| 0 <= k < items@.len() ==> items@[k] < files@.len(),
        folders@.len() + items@.len() <= u64::MAX,
    ensures
        res@ == browse_response(
            object_id@,
            file_views(files@),
            crate::text::texts(folders@),
            items@,
            server_ip@,
            port,
        ),
{
    let id = chars_of(object_id);
    let mut didl = crate::text::owned(
        "<DIDL-Lite xmlns=\"urn:schemas-upnp-org:metadata-1-0/DIDL-Lite/\" xmlns:dc=\"http://purl.org/dc/elements/1.1/\" xmlns:upnp=\"urn:schemas-upnp-org:metadata-1-0/upnp/\">",
    );
    let count: u64;
    if crate::text::eq_str(id.as_slice(), "0") {
        crate::text::push_str(
            &mut didl,
            "<container id=\"video\" parentID=\"0\" restricted=\"1\"><dc:title>Video</dc:title><upnp:class>object.container</upnp:class></container><container id=\"audio\" parentID=\"0\" restricted=\"1\"><dc:title>Music</dc:title><upnp:class>object.container</upnp:class></container><container id=\"image\" parentID=\"0\" restricted=\"1\"><dc:title>Pictures</dc:title><upnp:class>object.container</upnp:class></container>",
        );
        count = 3;
    } else {
        let ghost head = didl@;
        let mut k: usize = 0;
        while k < folders.len()
            invariant
                k <= folders.len(),
                didl@ == head + containers_xml(object_id@, crate::text::texts(folders@).subrange(0, k as int)),
            decreases folders.len() - k,
        {
            proof {
                assert(crate::text::texts(folders@).subrange(0, k + 1).drop_last() =~= crate::text::texts(
                    folders@,
                ).subrange(0, k as int));
            }
            push_container(&mut didl, object_id, folders[k].as_str());
            proof {
                assert(didl@ =~= head + containers_xml(object_id@, crate::text::texts(folders@).subrange(0, k + 1)));
            }
            k = k + 1;
        }
        proof {
            assert(crate::text::texts(folders@).subrange(0, folders@.len() as int) =~= crate::text::texts(folders@));
        }
        let ghost mid = didl@;
        let mut m: usize = 0;
        while m < items.len()
            invariant
                m <= items.len(),
                forall|k: int| 0 <= k < items@.len() ==> items@[k] < files@.len(),
                didl@ == mid + items_xml(object_id@, file_views(files@), items@.subrange(0, m as int), server_ip@, port),
            decreases items.len() - m,
        {
            proof {
                assert(items@.subrange(0, m + 1).drop_last() =~= items@.subrange(0, m as int));
                assert(file_views(files@)[items@[m as int] as int] == files@[items@[m as int] as int]@);
            }
            push_item(&mut didl, object_id, &files[items[m]], server_ip, port);
            proof {
                assert(didl@ =~= mid + items_xml(
                    object_id@,
                    file_views(files@),
                    items@.subrange(0, m + 1),
                    server_ip@,
                    port,
                ));
            }
            m = m + 1;
        }
        proof {
            assert(items@.subrange(0, items@.len() as int) =~= items@);
        }
        count = folders.len() as u64 + items.len() as u64;
    }
    crate::text::push_str(&mut didl, "</DIDL-Lite>");
    let mut out = crate::text::owned(
        "<?xml version=\"1.0\" encoding=\"UTF-8\"?>\n<s:Envelope xmlns:s=\"http://schemas.xmlsoap.org/soap/envelope/\" s:encodingStyle=\"http://schemas.xmlsoap.org/soap/encoding/\">\n    <s:Body>\n        <u:BrowseResponse xmlns:u=\"urn:schemas-upnp-org:service:ContentDirectory:1\">\n            <Result>",
    );
    crate::text::push_str(&mut out, crate::upnp::xml_escape(didl.as_str()).as_str());
    crate::text::push_str(&mut out, "</Result>\n            <NumberReturned>");
    crate::text::push_decimal(&mut out, count);
    crate::text::push_str(&mut out, "</NumberReturned>\n            <TotalMatches>");
    crate::text::push_decimal(&mut out, count);
    crate::text::push_str(
        &mut out,
        "</TotalMatches>\n            <UpdateID>0</UpdateID>\n        </u:BrowseResponse>\n    </s:Body>\n</s:Envelope>",
    );
    out
}

/// The Browse response for `object_id`: the listing of the media files
/// under the media root, with files served from `server_ip` and `port`.
pub fn generate_browse_response(
    object_id: &str,
    files: &Vec<MediaFile>,
    media_root: &str,
    server_ip: &str,
    port: u16,
) -> (res: String)
    ensures
        exists|folders: Seq<Seq<char>>, items: Seq<usize>|
            {
                &&& listing_ok(file_views(files@), media_root@, object_id@, folders, items)
                &&& res@ == browse_response(object_id@, file_views(files@), folders, items, server_ip@, port)
            },
{
    let (folders, items) = browse_listing(object_id, files, media_root);
    let n: usize = files.len();
    assert(n as int <= u64::MAX);
    proof {
        lemma_listing_in_range(file_views(files@), media_root@, object_id@, crate::text::texts(folders@), items@);
    }
    render_browse_response(object_id, files, &folders, &items, server_ip, port)
}

proof fn lemma_item_positions_in_range(files: Seq<MediaFileView>, root: Seq<char>, id: Seq<char>, n: nat)
    requires
        n <= files.len(),
    ensures
        forall|k: int| 0 <= k < item_positions(files, root, id, n).len() ==> item_positions(files, root, id, n)[k] < n,
        item_positions(files, root, id, n).len() <= n,
    decreases n,
{
    if n > 0 {
        lemma_item_positions_in_range(files, root, id, (n - 1) as nat);
    }
}

proof fn lemma_listing_in_range(
    files: Seq<MediaFileView>,
    root: Seq<char>,
    id: Seq<char>,
    folders: Seq<Seq<char>>,
    items: Seq<usize>,
)
    requires
        listing_ok(files, root, id, folders, items),
    ensures
        forall|k: int| 0 <= k < items.len() ==> items[k] < files.len(),
{
    let (cands, ord) = choose|cands: Seq<usize>, ord: Seq<usize>|
        {
            &&& cands == item_positions(files, root, id, files.len())
            &&& is_permutation(ord, cands.len())
            &&& sorted_by_keys(ord_keys(files, cands), ord)
            &&& items == ord.map_values(|o: usize| cands[o as int])
        };
    lemma_item_positions_in_range(files, root, id, files.len());
    assert forall|k: int| 0 <= k < items.len() implies items[k] < files.len() by {
        assert(items[k] == cands[ord[k] as int]);
    }
}

proof fn lemma_item_positions_listed(files: Seq<MediaFileView>, root: Seq<char>, id: Seq<char>, n: nat)
    requires
        n <= files.len(),
        files.len() <= usize::MAX,
    ensures
        forall|k: int|
            0 <= k < item_positions(files, root, id, n).len() ==> listed_item(
                files[#[trigger] item_positions(files, root, id, n)[k] as int],
                root,
                id,
            ),
    decreases n,
{
    if n > 0 {
        lemma_item_positions_listed(files, root, id, (n - 1) as nat);
        lemma_item_positions_in_range(files, root, id, (n - 1) as nat);
        let r = item_positions(files, root, id, (n - 1) as nat);
        let s = item_positions(files, root, id, n);
        assert forall|k: int| 0 <= k < s.len() implies listed_item(files[#[trigger] s[k] as int], root, id) by {
            if k < r.len() {
                assert(s[k] == r[k]);
                assert(listed_item(files[r[k] as int], root, id));
            } else {
                assert(s[k] as int == n - 1);
            }
        }
    }
}

/// A Browse of a kind lists only files of that kind: when the object id
/// starts with `video`, `audio` or `image`, every item listed is a file of
/// the list whose MIME type starts with that same word followed by `/`, and
/// lies below the media root; the items come in the order of their
/// lower-case file names.
pub proof fn law_items_are_of_the_browsed_kind(
    files: Seq<MediaFileView>,
    root: Seq<char>,
    id: Seq<char>,
    folders: Seq<Seq<char>>,
    items: Seq<usize>,
)
    requires
        listing_ok(files, root, id, folders, items),
        files.len() <= usize::MAX,
        starts_with(id, "video"@) || starts_with(id, "audio"@) || starts_with(id, "image"@),
    ensures
        forall|k: int|
            0 <= k < items.len() ==> {
                &&& items[k] < files.len()
                &&& starts_with(files[#[trigger] items[k] as int].mime_type, id.subrange(0, 5).push('/'))
                &&& within(files[items[k] as int].path, root)
            },
        forall|a: int, b: int|
            0 <= a < b < items.len() ==> lex_le(
                lowercase_of(files[#[trigger] items[a] as int].filename),
                lowercase_of(files[#[trigger] items[b] as int].filename),
            ),
{
    reveal_strlit("video");
    reveal_strlit("audio");
    reveal_strlit("image");
    reveal_strlit("video/");
    reveal_strlit("audio/");
    reveal_strlit("image/");
    let (cands, ord) = choose|cands: Seq<usize>, ord: Seq<usize>|
        {
            &&& cands == item_positions(files, root, id, files.len())
            &&& is_permutation(ord, cands.len())
            &&& sorted_by_keys(ord_keys(files, cands), ord)
            &&& items == ord.map_values(|o: usize| cands[o as int])
        };
    lemma_item_positions_in_range(files, root, id, files.len());
    lemma_item_positions_listed(files, root, id, files.len());
    let kind = id.subrange(0, 5).push('/');
    if starts_with(id, "video"@) {
        assert(kind =~= "video/"@);
        assert(browse_target(id).0 == "video/"@);
    } else if starts_with(id, "audio"@) {
        assert(kind =~= "audio/"@);
        assert(browse_target(id).0 == "audio/"@);
    } else {
        assert(kind =~= "image/"@);
        assert(browse_target(id).0 == "image/"@);
    }
    assert forall|k: int| 0 <= k < items.len() implies {
        &&& items[k] < files.len()
        &&& starts_with(files[#[trigger] items[k] as int].mime_type, id.subrange(0, 5).push('/'))
        &&& within(files[items[k] as int].path, root)
    } by {
        assert(items[k] == cands[ord[k] as int]);
        assert(listed_item(files[cands[ord[k] as int] as int], root, id));
    }
    assert forall|a: int, b: int| 0 <= a < b < items.len() implies lex_le(
        lowercase_of(files[#[trigger] items[a] as int].filename),
        lowercase_of(files[#[trigger] items[b] as int].filename),
    ) by {
        let keys = ord_keys(files, cands);
        assert(goes_before(keys, ord[a] as int, ord[b] as int));
        assert(items[a] == cands[ord[a] as int]);
        assert(items[b] == cands[ord[b] as int]);
        assert(keys[ord[a] as int] == lowercase_of(files[items[a] as int].filename));
        assert(keys[ord[b] as int] == lowercase_of(files[items[b] as int].filename));
        lemma_lex_refl(keys[ord[a] as int]);
    }
}

} // verus!
