//! UPnP and SSDP texts: XML escaping, the device and service descriptions,
//! the object a Browse request names, byte ranges of media requests, the
//! address the server advertises, and SSDP announcements.
use vstd::prelude::*;
use crate::app_error::AppError;
use crate::platform::{interface_views, is_primary_at, PlatformInfo};
use crate::text::{
    all_digits, chars_of, concat3, contains, decimal, digits_value, find, find_char,
    owned, push_char, push_decimal, push_str, slice_chars, split, split_on, starts_with,
    string_of, views,
};

verus! {

// ---------------------------------------------------------------------------
// XML
// ---------------------------------------------------------------------------

/// How one character is written in XML text.
pub open spec fn xml_char(c: char) -> Seq<char> {
    if c == '&' {
        "&amp;"@
    } else if c == '<' {
        "&lt;"@
    } else if c == '>' {
        "&gt;"@
    } else if c == '"' {
        "&quot;"@
    } else if c == '\'' {
        "&#39;"@
    } else {
        seq![c]
    }
}

/// A text escaped for XML: each markup character replaced by its entity.
pub open spec fn xml_escaped(s: Seq<char>) -> Seq<char>
    decreases s.len(),
{
    if s.len() == 0 {
        Seq::empty()
    } else {
        xml_escaped(s.drop_last()) + xml_char(s.last())
    }
}

fn push_xml_char(out: &mut String, c: char)
    ensures
        final(out)@ == old(out)@ + xml_char(c),
{
    if c == '&' {
        push_str(out, "&amp;");
    } else if c == '<' {
        push_str(out, "&lt;");
    } else if c == '>' {
        push_str(out, "&gt;");
    } else if c == '"' {
        push_str(out, "&quot;");
    } else if c == '\'' {
        push_str(out, "&#39;");
    } else {
        push_char(out, c);
        proof {
            assert(out@ =~= old(out)@ + seq![c]);
        }
    }
}

/// Escape a text for XML.
pub fn xml_escape(s: &str) -> (res: String)
    ensures
        res@ == xml_escaped(s@),
{
    let cs = chars_of(s);
    let mut out = String::new();
    let mut i: usize = 0;
    while i < cs.len()
        invariant
            i <= cs.len(),
            cs@ == s@,
            out@ == xml_escaped(cs@.subrange(0, i as int)),
        decreases cs.len() - i,
    {
        proof {
            assert(cs@.subrange(0, i + 1).drop_last() =~= cs@.subrange(0, i as int));
        }
        push_xml_char(&mut out, cs[i]);
        i = i + 1;
    }
    proof {
        assert(cs@.subrange(0, cs@.len() as int) =~= cs@);
    }
    out
}

/// Escaped text holds no markup character: no `<`, `>`, double or single
/// quote.
pub proof fn law_escaped_text_has_no_markup(s: Seq<char>)
    ensures
        !xml_escaped(s).contains('<'),
        !xml_escaped(s).contains('>'),
        !xml_escaped(s).contains('"'),
        !xml_escaped(s).contains('\''),
    decreases s.len(),
{
    reveal_strlit("&amp;");
    reveal_strlit("&lt;");
    reveal_strlit("&gt;");
    reveal_strlit("&quot;");
    reveal_strlit("&#39;");
    if s.len() > 0 {
        law_escaped_text_has_no_markup(s.drop_last());
        let a = xml_escaped(s.drop_last());
        let b = xml_char(s.last());
        assert forall|c: char| (c == '<' || c == '>' || c == '"' || c == '\'') implies !(a + b).contains(c) by {
            if (a + b).contains(c) {
                let k = choose|k: int| 0 <= k < (a + b).len() && (a + b)[k] == c;
                if k < a.len() {
                    assert(a[k] == c);
                } else {
                    assert(b[k - a.len()] == c);
                }
            }
        }
    }
}

/// Whether `t` begins with the characters of `e`.
pub open spec fn begins(t: Seq<char>, e: Seq<char>) -> bool {
    e.len() <= t.len() && forall|k: int| 0 <= k < e.len() ==> t[k] == e[k]
}

/// XML text with its character entities read back: `&amp;`, `&lt;`,
/// `&gt;`, `&quot;` and `&#39;` each stand for one character; any other
/// character stands for itself.
pub open spec fn xml_unescaped(t: Seq<char>) -> Seq<char>
    decreases t.len(),
{
    if t.len() == 0 {
        Seq::empty()
    } else if begins(t, seq!['&', 'a', 'm', 'p', ';']) {
        seq!['&'] + xml_unescaped(t.subrange(5, t.len() as int))
    } else if begins(t, seq!['&', 'l', 't', ';']) {
        seq!['<'] + xml_unescaped(t.subrange(4, t.len() as int))
    } else if begins(t, seq!['&', 'g', 't', ';']) {
        seq!['>'] + xml_unescaped(t.subrange(4, t.len() as int))
    } else if begins(t, seq!['&', 'q', 'u', 'o', 't', ';']) {
        seq!['"'] + xml_unescaped(t.subrange(6, t.len() as int))
    } else if begins(t, seq!['&', '#', '3', '9', ';']) {
        seq!['\''] + xml_unescaped(t.subrange(5, t.len() as int))
    } else {
        seq![t[0]] + xml_unescaped(t.subrange(1, t.len() as int))
    }
}

proof fn lemma_escaped_concat(a: Seq<char>, b: Seq<char>)
    ensures
        xml_escaped(a + b) == xml_escaped(a) + xml_escaped(b),
    decreases b.len(),
{
    if b.len() == 0 {
        assert(a + b =~= a);
        assert(xml_escaped(a) + xml_escaped(b) =~= xml_escaped(a));
    } else {
        lemma_escaped_concat(a, b.drop_last());
        assert((a + b).drop_last() =~= a + b.drop_last());
        assert((a + b).last() == b.last());
        assert(xml_escaped(a + b) =~= xml_escaped(a) + xml_escaped(b));
    }
}

/// Escaping loses nothing: reading the entities of escaped text back gives
/// the original text, whatever it holds. So every `&` of escaped text begins
/// an entity, and each markup character is written as its own entity.
pub proof fn law_escaping_reads_back(s: Seq<char>)
    ensures
        xml_unescaped(xml_escaped(s)) == s,
    decreases s.len(),
{
    reveal_strlit("&amp;");
    reveal_strlit("&lt;");
    reveal_strlit("&gt;");
    reveal_strlit("&quot;");
    reveal_strlit("&#39;");
    if s.len() > 0 {
        let c = s[0];
        let rest = s.subrange(1, s.len() as int);
        law_escaping_reads_back(rest);
        assert(s =~= seq![c] + rest);
        lemma_escaped_concat(seq![c], rest);
        assert(seq![c].drop_last() =~= Seq::<char>::empty());
        assert(xml_escaped(Seq::<char>::empty()) == Seq::<char>::empty());
        assert(seq![c].last() == c);
        assert(xml_escaped(seq![c]) =~= xml_escaped(Seq::<char>::empty()) + xml_char(c));
        assert(xml_escaped(seq![c]) =~= xml_char(c));
        let e = xml_char(c);
        let r = xml_escaped(rest);
        let t = e + r;
        assert(xml_escaped(s) == t);
        assert(t.subrange(e.len() as int, t.len() as int) =~= r);
        if c == '&' {
            assert(begins(t, seq!['&', 'a', 'm', 'p', ';']));
        } else if c == '<' {
            assert(!begins(t, seq!['&', 'a', 'm', 'p', ';'])) by { assert(t[1] == 'l'); }
            assert(begins(t, seq!['&', 'l', 't', ';']));
        } else if c == '>' {
            assert(!begins(t, seq!['&', 'a', 'm', 'p', ';'])) by { assert(t[1] == 'g'); }
            assert(!begins(t, seq!['&', 'l', 't', ';'])) by { assert(t[1] == 'g'); }
            assert(begins(t, seq!['&', 'g', 't', ';']));
        } else if c == '"' {
            assert(!begins(t, seq!['&', 'a', 'm', 'p', ';'])) by { assert(t[1] == 'q'); }
            assert(!begins(t, seq!['&', 'l', 't', ';'])) by { assert(t[1] == 'q'); }
            assert(!begins(t, seq!['&', 'g', 't', ';'])) by { assert(t[1] == 'q'); }
            assert(begins(t, seq!['&', 'q', 'u', 'o', 't', ';']));
        } else if c == '\'' {
            assert(!begins(t, seq!['&', 'a', 'm', 'p', ';'])) by { assert(t[1] == '#'); }
            assert(!begins(t, seq!['&', 'l', 't', ';'])) by { assert(t[1] == '#'); }
            assert(!begins(t, seq!['&', 'g', 't', ';'])) by { assert(t[1] == '#'); }
            assert(!begins(t, seq!['&', 'q', 'u', 'o', 't', ';'])) by { assert(t[1] == '#'); }
            assert(begins(t, seq!['&', '#', '3', '9', ';']));
        } else {
            assert(t[0] == c);
            assert(!begins(t, seq!['&', 'a', 'm', 'p', ';'])) by { assert(t[0] != '&'); }
            assert(!begins(t, seq!['&', 'l', 't', ';'])) by { assert(t[0] != '&'); }
            assert(!begins(t, seq!['&', 'g', 't', ';'])) by { assert(t[0] != '&'); }
            assert(!begins(t, seq!['&', 'q', 'u', 'o', 't', ';'])) by { assert(t[0] != '&'); }
            assert(!begins(t, seq!['&', '#', '3', '9', ';'])) by { assert(t[0] != '&'); }
        }
        assert(xml_unescaped(t) =~= seq![c] + xml_unescaped(r));
    }
}

/// The UPnP class of an item of a MIME type.
pub open spec fn upnp_class(mime: Seq<char>) -> Seq<char> {
    if starts_with(mime, "video/"@) {
        "object.item.videoItem"@
    } else if starts_with(mime, "audio/"@) {
        "object.item.audioItem"@
    } else if starts_with(mime, "image/"@) {
        "object.item.imageItem"@
    } else {
        "object.item"@
    }
}

/// The UPnP class for a MIME type.
pub fn get_upnp_class(mime_type: &str) -> (res: &'static str)
    ensures
        res@ == upnp_class(mime_type@),
{
    let m = chars_of(mime_type);
    if crate::linux_net::begins_with(m.as_slice(), "video/") {
        "object.item.videoItem"
    } else if crate::linux_net::begins_with(m.as_slice(), "audio/") {
        "object.item.audioItem"
    } else if crate::linux_net::begins_with(m.as_slice(), "image/") {
        "object.item.imageItem"
    } else {
        "object.item"
    }
}

/// The device description before the friendly name.
pub open spec fn description_head() -> Seq<char> {
    "<?xml version=\"1.0\" encoding=\"UTF-8\"?>\n<root xmlns=\"urn:schemas-upnp-org:device-1-0\">\n    <specVersion><major>1</major><minor>0</minor></specVersion>\n    <device>\n        <deviceType>urn:schemas-upnp-org:device:MediaServer:1</deviceType>\n        <friendlyName>"@
}

/// The device description between the friendly name and the identifier.
pub open spec fn description_middle() -> Seq<char> {
    "</friendlyName>\n        <manufacturer>OpenDLNA</manufacturer>\n        <modelName>OpenDLNA Server</modelName>\n        <UDN>uuid:"@
}

/// The device description after the identifier.
pub open spec fn description_tail() -> Seq<char> {
    "</UDN>\n        <serviceList>\n            <service>\n                <serviceType>urn:schemas-upnp-org:service:ContentDirectory:1</serviceType>\n                <serviceId>urn:upnp-org:serviceId:ContentDirectory</serviceId>\n                <SCPDURL>/ContentDirectory.xml</SCPDURL>\n                <controlURL>/control/ContentDirectory</controlURL>\n                <eventSubURL>/event/ContentDirectory</eventSubURL>\n            </service>\n        </serviceList>\n    </device>\n</root>"@
}

/// The UPnP device description of a media server with this friendly name
/// (escaped) and identifier.
pub fn generate_description_xml(server_name: &str, uuid: &str) -> (res: String)
    ensures
        res@ == description_head() + xml_escaped(server_name@) + description_middle() + uuid@ + description_tail(),
{
    let mut s = owned(
        "<?xml version=\"1.0\" encoding=\"UTF-8\"?>\n<root xmlns=\"urn:schemas-upnp-org:device-1-0\">\n    <specVersion><major>1</major><minor>0</minor></specVersion>\n    <device>\n        <deviceType>urn:schemas-upnp-org:device:MediaServer:1</deviceType>\n        <friendlyName>",
    );
    let name = xml_escape(server_name);
    push_str(&mut s, name.as_str());
    push_str(
        &mut s,
        "</friendlyName>\n        <manufacturer>OpenDLNA</manufacturer>\n        <modelName>OpenDLNA Server</modelName>\n        <UDN>uuid:",
    );
    push_str(&mut s, uuid);
    push_str(
        &mut s,
        "</UDN>\n        <serviceList>\n            <service>\n                <serviceType>urn:schemas-upnp-org:service:ContentDirectory:1</serviceType>\n                <serviceId>urn:upnp-org:serviceId:ContentDirectory</serviceId>\n                <SCPDURL>/ContentDirectory.xml</SCPDURL>\n                <controlURL>/control/ContentDirectory</controlURL>\n                <eventSubURL>/event/ContentDirectory</eventSubURL>\n            </service>\n        </serviceList>\n    </device>\n</root>",
    );
    s
}

/// The ContentDirectory service description.
pub open spec fn scpd_text() -> Seq<char> {
    "<?xml version=\"1.0\" encoding=\"UTF-8\"?>\n<scpd xmlns=\"urn:schemas-upnp-org:service-1-0\">\n    <specVersion><major>1</major><minor>0</minor></specVersion>\n    <actionList>\n        <action>\n            <name>Browse</name>\n            <argumentList>\n                <argument><name>ObjectID</name><direction>in</direction><relatedStateVariable>A_ARG_TYPE_ObjectID</relatedStateVariable></argument>\n                <argument><name>BrowseFlag</name><direction>in</direction><relatedStateVariable>A_ARG_TYPE_BrowseFlag</relatedStateVariable></argument>\n                <argument><name>Filter</name><direction>in</direction><relatedStateVariable>A_ARG_TYPE_Filter</relatedStateVariable></argument>\n                <argument><name>StartingIndex</name><direction>in</direction><relatedStateVariable>A_ARG_TYPE_Index</relatedStateVariable></argument>\n                <argument><name>RequestedCount</name><direction>in</direction><relatedStateVariable>A_ARG_TYPE_Count</relatedStateVariable></argument>\n                <argument><name>SortCriteria</name><direction>in</direction><relatedStateVariable>A_ARG_TYPE_SortCriteria</relatedStateVariable></argument>\n                <argument><name>Result</name><direction>out</direction><relatedStateVariable>A_ARG_TYPE_Result</relatedStateVariable></argument>\n                <argument><name>NumberReturned</name><direction>out</direction><relatedStateVariable>A_ARG_TYPE_Count</relatedStateVariable></argument>\n                <argument><name>TotalMatches</name><direction>out</direction><relatedStateVariable>A_ARG_TYPE_Count</relatedStateVariable></argument>\n                <argument><name>UpdateID</name><direction>out</direction><relatedStateVariable>A_ARG_TYPE_UpdateID</relatedStateVariable></argument>\n            </argumentList>\n        </action>\n    </actionList>\n    <serviceStateTable>\n        <stateVariable sendEvents=\"no\"><name>A_ARG_TYPE_ObjectID</name><dataType>string</dataType></stateVariable>\n        <stateVariable sendEvents=\"no\"><name>A_ARG_TYPE_BrowseFlag</name><dataType>string</dataType></stateVariable>\n        <stateVariable sendEvents=\"no\"><name>A_ARG_TYPE_Filter</name><dataType>string</dataType></stateVariable>\n        <stateVariable sendEvents=\"no\"><name>A_ARG_TYPE_Index</name><dataType>ui4</dataType></stateVariable>\n        <stateVariable sendEvents=\"no\"><name>A_ARG_TYPE_Count</name><dataType>ui4</dataType></stateVariable>\n        <stateVariable sendEvents=\"no\"><name>A_ARG_TYPE_SortCriteria</name><dataType>string</dataType></stateVariable>\n        <stateVariable sendEvents=\"no\"><name>A_ARG_TYPE_Result</name><dataType>string</dataType></stateVariable>\n        <stateVariable sendEvents=\"no\"><name>A_ARG_TYPE_UpdateID</name><dataType>ui4</dataType></stateVariable>\n    </serviceStateTable>\n</scpd>"@
}

/// The ContentDirectory service description.
pub fn generate_scpd_xml() -> (res: String)
    ensures
        res@ == scpd_text(),
{
    owned(
        "<?xml version=\"1.0\" encoding=\"UTF-8\"?>\n<scpd xmlns=\"urn:schemas-upnp-org:service-1-0\">\n    <specVersion><major>1</major><minor>0</minor></specVersion>\n    <actionList>\n        <action>\n            <name>Browse</name>\n            <argumentList>\n                <argument><name>ObjectID</name><direction>in</direction><relatedStateVariable>A_ARG_TYPE_ObjectID</relatedStateVariable></argument>\n                <argument><name>BrowseFlag</name><direction>in</direction><relatedStateVariable>A_ARG_TYPE_BrowseFlag</relatedStateVariable></argument>\n                <argument><name>Filter</name><direction>in</direction><relatedStateVariable>A_ARG_TYPE_Filter</relatedStateVariable></argument>\n                <argument><name>StartingIndex</name><direction>in</direction><relatedStateVariable>A_ARG_TYPE_Index</relatedStateVariable></argument>\n                <argument><name>RequestedCount</name><direction>in</direction><relatedStateVariable>A_ARG_TYPE_Count</relatedStateVariable></argument>\n                <argument><name>SortCriteria</name><direction>in</direction><relatedStateVariable>A_ARG_TYPE_SortCriteria</relatedStateVariable></argument>\n                <argument><name>Result</name><direction>out</direction><relatedStateVariable>A_ARG_TYPE_Result</relatedStateVariable></argument>\n                <argument><name>NumberReturned</name><direction>out</direction><relatedStateVariable>A_ARG_TYPE_Count</relatedStateVariable></argument>\n                <argument><name>TotalMatches</name><direction>out</direction><relatedStateVariable>A_ARG_TYPE_Count</relatedStateVariable></argument>\n                <argument><name>UpdateID</name><direction>out</direction><relatedStateVariable>A_ARG_TYPE_UpdateID</relatedStateVariable></argument>\n            </argumentList>\n        </action>\n    </actionList>\n    <serviceStateTable>\n        <stateVariable sendEvents=\"no\"><name>A_ARG_TYPE_ObjectID</name><dataType>string</dataType></stateVariable>\n        <stateVariable sendEvents=\"no\"><name>A_ARG_TYPE_BrowseFlag</name><dataType>string</dataType></stateVariable>\n        <stateVariable sendEvents=\"no\"><name>A_ARG_TYPE_Filter</name><dataType>string</dataType></stateVariable>\n        <stateVariable sendEvents=\"no\"><name>A_ARG_TYPE_Index</name><dataType>ui4</dataType></stateVariable>\n        <stateVariable sendEvents=\"no\"><name>A_ARG_TYPE_Count</name><dataType>ui4</dataType></stateVariable>\n        <stateVariable sendEvents=\"no\"><name>A_ARG_TYPE_SortCriteria</name><dataType>string</dataType></stateVariable>\n        <stateVariable sendEvents=\"no\"><name>A_ARG_TYPE_Result</name><dataType>string</dataType></stateVariable>\n        <stateVariable sendEvents=\"no\"><name>A_ARG_TYPE_UpdateID</name><dataType>ui4</dataType></stateVariable>\n    </serviceStateTable>\n</scpd>",
    )
}

// ---------------------------------------------------------------------------
// Requests
// ---------------------------------------------------------------------------

/// The object a ContentDirectory request names: the text between
/// `<ObjectID>` and `</ObjectID>`, or the root `0` when either tag is
/// missing.
pub open spec fn object_id(body: Seq<char>) -> Seq<char> {
    match (find(body, "<ObjectID>"@), find(body, "</ObjectID>"@)) {
        (Some(a), Some(b)) => body.subrange(a + 10, b),
        _ => "0"@,
    }
}

/// The closing tag does not come before the end of the opening one.
pub open spec fn object_tags_in_order(body: Seq<char>) -> bool {
    match (find(body, "<ObjectID>"@), find(body, "</ObjectID>"@)) {
        (Some(a), Some(b)) => a + 10 <= b,
        _ => true,
    }
}

/// The object a ContentDirectory request names.
pub fn get_object_id(body: &str) -> (res: String)
    requires
        object_tags_in_order(body@),
    ensures
        res@ == object_id(body@),
{
    let b = chars_of(body);
    let open = chars_of("<ObjectID>");
    let close = chars_of("</ObjectID>");
    match (crate::text::find_seq(b.as_slice(), open.as_slice()), crate::text::find_seq(b.as_slice(), close.as_slice())) {
        (Some(a), Some(e)) => {
            proof {
                crate::text::lemma_find(b@, "</ObjectID>"@);
            }
            string_of(slice_chars(b.as_slice(), a + 10, e).as_slice())
        },
        _ => owned("0"),
    }
}

/// Whether the tags of an object request are in order.
pub fn object_tags_ordered(body: &str) -> (res: bool)
    ensures
        res == object_tags_in_order(body@),
{
    let b = chars_of(body);
    let open = chars_of("<ObjectID>");
    let close = chars_of("</ObjectID>");
    match (crate::text::find_seq(b.as_slice(), open.as_slice()), crate::text::find_seq(b.as_slice(), close.as_slice())) {
        (Some(a), Some(e)) => a <= e && e - a >= 10,
        _ => true,
    }
}

/// Whether a control request is a Browse action.
pub fn is_browse_request(body: &str) -> (res: bool)
    ensures
        res == contains(body@, "<u:Browse"@),
{
    crate::linux_net::holds(chars_of(body).as_slice(), "<u:Browse")
}

/// The number a decimal text denotes as `u64::from_str` reads it: an
/// optional `+`, one or more digits, a value that fits.
pub open spec fn u64_text(s: Seq<char>) -> Option<u64> {
    let d = if s.len() > 0 && s[0] == '+' {
        s.drop_first()
    } else {
        s
    };
    if d.len() > 0 && all_digits(d) && digits_value(d) <= u64::MAX {
        Some(digits_value(d) as u64)
    } else {
        None
    }
}

/// The two sides of the first range of a `Range` header, if it has the
/// `bytes=` prefix and a dash.
pub open spec fn range_sides(s: Seq<char>) -> Option<(Seq<char>, Seq<char>)> {
    if !starts_with(s, "bytes="@) {
        None
    } else {
        let first = split(s.subrange(6, s.len() as int), ',')[0];
        match find_char(first, '-') {
            Some(k) => Some((first.subrange(0, k), first.subrange(k + 1, first.len() as int))),
            None => None,
        }
    }
}

/// The first byte of a range: a suffix range counts back from the end.
pub open spec fn range_start(s: Seq<char>, size: u64) -> Option<u64> {
    match range_sides(s) {
        Some((a, b)) => if a.len() == 0 {
            match u64_text(b) {
                Some(n) => Some(if n >= size { 0 } else { (size - n) as u64 }),
                None => None,
            }
        } else {
            u64_text(a)
        },
        None => None,
    }
}

/// The byte range a `Range` header asks of a file of `size` bytes: the
/// first range only, its end clamped to the last byte; a suffix range
/// (`-N`, the last `N` bytes) and an open range (`N-`) end at the last
/// byte; none when it is malformed or starts past its end or the file's.
pub open spec fn byte_range(s: Seq<char>, size: u64) -> Option<(u64, u64)> {
    match (range_sides(s), range_start(s, size)) {
        (Some((a, b)), Some(start)) => {
            let end: Option<u64> = if a.len() == 0 || b.len() == 0 {
                Some((size - 1) as u64)
            } else {
                match u64_text(b) {
                    Some(e) => Some(if e < size - 1 { e } else { (size - 1) as u64 }),
                    None => None,
                }
            };
            match end {
                Some(e) => if start > e || start >= size {
                    None
                } else {
                    Some((start, e))
                },
                None => None,
            }
        },
        _ => None,
    }
}

/// Every range that is served lies inside the file: it starts no later than
/// it ends, and it ends at or before the file's last byte.
pub proof fn law_served_range_lies_in_file(s: Seq<char>, size: u64)
    ensures
        byte_range(s, size) matches Some((a, b)) ==> a <= b && b < size,
{
}

pub(crate) fn parse_u64_text(s: &[char]) -> (res: Option<u64>)
    ensures
        res == u64_text(s@),
{
    let start: usize = if s.len() > 0 && s[0] == '+' { 1 } else { 0 };
    let d = slice_chars(s, start, s.len());
    proof {
        if s@.len() > 0 && s@[0] == '+' {
            assert(d@ =~= s@.drop_first());
        } else {
            assert(d@ =~= s@);
        }
    }
    if d.len() == 0 {
        return None;
    }
    let mut v: u64 = 0;
    let mut i: usize = 0;
    while i < d.len()
        invariant
            i <= d.len(),
            d@.len() > 0,
            d@ == (if s@.len() > 0 && s@[0] == '+' { s@.drop_first() } else { s@ }),
            all_digits(d@.subrange(0, i as int)),
            v as nat == digits_value(d@.subrange(0, i as int)),
        decreases d.len() - i,
    {
        let c = d[i];
        proof {
            assert(d@.subrange(0, i + 1).drop_last() =~= d@.subrange(0, i as int));
        }
        if !('0' <= c && c <= '9') {
            proof {
                assert(!crate::text::is_digit(d@[i as int]));
                if all_digits(d@) {
                    assert(crate::text::is_digit(d@[i as int]));
                }
            }
            return None;
        }
        let dv = (c as u32 - '0' as u32) as u64;
        assert(dv == crate::text::digit_value(d@[i as int]));
        match v.checked_mul(10) {
            None => {
                proof {
                    lemma_digits_prefix_grows(d@, i as int);
                    assert(v * 10 + dv > u64::MAX);
                }
                return None;
            },
            Some(t) => match t.checked_add(dv) {
                None => {
                    proof {
                        lemma_digits_prefix_grows(d@, i as int);
                    }
                    return None;
                },
                Some(w) => {
                    v = w;
                },
            },
        }
        i = i + 1;
    }
    proof {
        assert(d@.subrange(0, d@.len() as int) =~= d@);
    }
    Some(v)
}

/// The value of a digit string is at least that of each of its prefixes
/// extended by one digit.
proof fn lemma_digits_prefix_grows(d: Seq<char>, i: int)
    requires
        0 <= i < d.len(),
        all_digits(d.subrange(0, i)),
    ensures
        all_digits(d) ==> digits_value(d) >= digits_value(d.subrange(0, i)) * 10 + crate::text::digit_value(d[i]),
    decreases d.len() - i,
{
    if all_digits(d) {
        if i + 1 == d.len() {
            assert(d.subrange(0, d.len() as int) =~= d);
            assert(d.drop_last() =~= d.subrange(0, i));
        } else {
            assert(all_digits(d.subrange(0, i + 1))) by {
                assert forall|j: int| 0 <= j < i + 1 implies crate::text::is_digit(#[trigger] d.subrange(0, i + 1)[j]) by {
                    assert(d.subrange(0, i + 1)[j] == d[j]);
                }
            }
            lemma_digits_prefix_grows(d, i + 1);
            lemma_digits_value_mono(d, i + 1);
            assert(d.subrange(0, i + 1).drop_last() =~= d.subrange(0, i));
        }
    }
}

/// A longer digit prefix denotes at least as much.
proof fn lemma_digits_value_mono(d: Seq<char>, i: int)
    requires
        0 <= i <= d.len(),
        all_digits(d),
    ensures
        digits_value(d.subrange(0, i)) <= digits_value(d),
    decreases d.len() - i,
{
    if i < d.len() {
        lemma_digits_value_mono(d, i + 1);
        assert(d.subrange(0, i + 1).drop_last() =~= d.subrange(0, i));
        assert(digits_value(d.subrange(0, i + 1)) == digits_value(d.subrange(0, i)) * 10 + crate::text::digit_value(
            d[i],
        ));
    } else {
        assert(d.subrange(0, i) =~= d);
    }
}

/// Whether parsing a range header with a file of `size` bytes stays clear
/// of the empty file's missing last byte: the file has bytes, or the header
/// is refused before its end is worked out.
pub open spec fn range_computable(s: Seq<char>, size: u64) -> bool {
    size > 0 || range_start(s, size) is None
}

/// Parse a `Range` header against a file of `file_size` bytes.
pub fn parse_range_header(range_str: &str, file_size: u64) -> (res: Result<(u64, u64), AppError>)
    requires
        range_computable(range_str@, file_size),
    ensures
        match byte_range(range_str@, file_size) {
            Some(r) => res == Ok::<(u64, u64), AppError>(r),
            None => res matches Err(AppError::InvalidRange),
        },
{
    let s = chars_of(range_str);
    if !crate::linux_net::begins_with(s.as_slice(), "bytes=") {
        return Err(AppError::InvalidRange);
    }
    proof {
        reveal_strlit("bytes=");
    }
    let rest = slice_chars(s.as_slice(), 6, s.len());
    let pieces = split_on(rest.as_slice(), ',');
    proof {
        assert(split(rest@, ',').len() > 0);
        assert(views(pieces@)[0] == pieces@[0]@);
    }
    let first = &pieces[0];
    let k = match crate::text::find_first_char(first.as_slice(), '-') {
        Some(k) => k,
        None => {
            return Err(AppError::InvalidRange);
        },
    };
    proof {
        crate::text::lemma_find_char(first@, '-');
    }
    assert(k < first.len());
    let a = slice_chars(first.as_slice(), 0, k);
    let b = slice_chars(first.as_slice(), k + 1, first.len());
    let start = if a.len() == 0 {
        match parse_u64_text(b.as_slice()) {
            Some(n) => if n >= file_size { 0 } else { file_size - n },
            None => {
                return Err(AppError::InvalidRange);
            },
        }
    } else {
        match parse_u64_text(a.as_slice()) {
            Some(v) => v,
            None => {
                return Err(AppError::InvalidRange);
            },
        }
    };
    let end = if a.len() == 0 || b.len() == 0 {
        file_size - 1
    } else {
        match parse_u64_text(b.as_slice()) {
            Some(e) => if e < file_size - 1 { e } else { file_size - 1 },
            None => {
                return Err(AppError::InvalidRange);
            },
        }
    };
    if start > end || start >= file_size {
        return Err(AppError::InvalidRange);
    }
    Ok((start, end))
}

// ---------------------------------------------------------------------------
// The advertised address
// ---------------------------------------------------------------------------

/// The address the server puts in its URLs: the primary interface's, else
/// the configured bind address unless it is the wildcard or empty, else the
/// first interface that is up and not loopback, else `127.0.0.1`.
pub open spec fn server_ip(info: PlatformInfo, interface: Seq<char>) -> Seq<char> {
    let s = interface_views(info.network_interfaces@);
    if crate::platform::any_suitable(s) {
        s[choose|i: int| is_primary_at(s, i)].ip_address.text()
    } else if interface != "0.0.0.0"@ && interface.len() > 0 {
        interface
    } else if exists|i: int| 0 <= i < s.len() && !s[i].is_loopback && s[i].is_up {
        s[choose|i: int| 0 <= i < s.len() && !s[i].is_loopback && s[i].is_up
            && forall|j: int| 0 <= j < i ==> !(!s[j].is_loopback && s[j].is_up)].ip_address.text()
    } else {
        "127.0.0.1"@
    }
}

/// The server's address for use in URLs.
pub fn get_server_ip(info: &PlatformInfo, server_interface: &str) -> (res: String)
    ensures
        res@ == server_ip(*info, server_interface@),
{
    let ghost s = interface_views(info.network_interfaces@);
    match crate::platform::primary_interface_index(&info.network_interfaces) {
        Some(i) => {
            proof {
                let c = choose|j: int| is_primary_at(s, j);
                assert(is_primary_at(s, i as int));
                if c < i {
                    assert(s[i as int].kind.rank() < s[c].kind.rank());
                }
                if c > i {
                    assert(s[c].kind.rank() < s[i as int].kind.rank());
                }
                assert(s[i as int] == info.network_interfaces@[i as int]@);
            }
            return info.network_interfaces[i].ip_address.to_text();
        },
        None => {},
    }
    let iface = chars_of(server_interface);
    if !crate::text::eq_str(iface.as_slice(), "0.0.0.0") && iface.len() > 0 {
        return owned(server_interface);
    }
    let mut k: usize = 0;
    while k < info.network_interfaces.len()
        invariant
            k <= info.network_interfaces.len(),
            s == interface_views(info.network_interfaces@),
            !crate::platform::any_suitable(s),
            !(server_interface@ != "0.0.0.0"@ && server_interface@.len() > 0),
            forall|j: int| 0 <= j < k ==> !(!(#[trigger] s[j]).is_loopback && s[j].is_up),
        decreases info.network_interfaces.len() - k,
    {
        assert(s[k as int] == info.network_interfaces@[k as int]@);
        if !info.network_interfaces[k].is_loopback && info.network_interfaces[k].is_up {
            proof {
                let c = choose|i: int| 0 <= i < s.len() && !s[i].is_loopback && s[i].is_up
                    && forall|j: int| 0 <= j < i ==> !(!s[j].is_loopback && s[j].is_up);
                assert(0 <= k < s.len() && !s[k as int].is_loopback && s[k as int].is_up
                    && forall|j: int| 0 <= j < k ==> !(!s[j].is_loopback && s[j].is_up));
                if c < k {
                    assert(!(!s[c].is_loopback && s[c].is_up));
                }
                if c > k {
                    assert(!(!s[k as int].is_loopback && s[k as int].is_up));
                }
            }
            return info.network_interfaces[k].ip_address.to_text();
        }
        k = k + 1;
    }
    owned("127.0.0.1")
}

// ---------------------------------------------------------------------------
// SSDP
// ---------------------------------------------------------------------------

/// The answer to an SSDP search.
pub open spec fn ssdp_response_text(host: Seq<char>, port: u16, uuid: Seq<char>) -> Seq<char> {
    "HTTP/1.1 200 OK\r\nCACHE-CONTROL: max-age=1800\r\nEXT:\r\nLOCATION: http://"@ + host + ":"@ + decimal(
        port as nat,
    ) + "/description.xml\r\nSERVER: Rust DLNA/1.0 UPnP/1.0\r\nST: urn:schemas-upnp-org:device:MediaServer:1\r\nUSN: uuid:"@
        + uuid + "::urn:schemas-upnp-org:device:MediaServer:1\r\n\r\n"@
}

/// The answer to an SSDP search for the media server at `host:port`.
pub fn create_ssdp_response(host: &str, port: u16, uuid: &str) -> (res: String)
    ensures
        res@ == ssdp_response_text(host@, port, uuid@),
{
    let mut s = concat3(
        "HTTP/1.1 200 OK\r\nCACHE-CONTROL: max-age=1800\r\nEXT:\r\nLOCATION: http://",
        host,
        ":",
    );
    push_decimal(&mut s, port as u64);
    push_str(
        &mut s,
        "/description.xml\r\nSERVER: Rust DLNA/1.0 UPnP/1.0\r\nST: urn:schemas-upnp-org:device:MediaServer:1\r\nUSN: uuid:",
    );
    push_str(&mut s, uuid);
    push_str(&mut s, "::urn:schemas-upnp-org:device:MediaServer:1\r\n\r\n");
    s
}

/// The SSDP announcement that the media server is alive.
pub open spec fn ssdp_alive_text(host: Seq<char>, port: u16, uuid: Seq<char>) -> Seq<char> {
    "NOTIFY * HTTP/1.1\r\nHOST: 239.255.255.250:1900\r\nCACHE-CONTROL: max-age=1800\r\nLOCATION: http://"@ + host
        + ":"@ + decimal(port as nat)
        + "/description.xml\r\nNT: urn:schemas-upnp-org:device:MediaServer:1\r\nNTS: ssdp:alive\r\nSERVER: Rust DLNA/1.0 UPnP/1.0\r\nUSN: uuid:"@
        + uuid + "::urn:schemas-upnp-org:device:MediaServer:1\r\n\r\n"@
}

/// The SSDP announcement that the media server at `host:port` is alive.
pub fn ssdp_alive_message(host: &str, port: u16, uuid: &str) -> (res: String)
    ensures
        res@ == ssdp_alive_text(host@, port, uuid@),
{
    let mut s = concat3(
        "NOTIFY * HTTP/1.1\r\nHOST: 239.255.255.250:1900\r\nCACHE-CONTROL: max-age=1800\r\nLOCATION: http://",
        host,
        ":",
    );
    push_decimal(&mut s, port as u64);
    push_str(
        &mut s,
        "/description.xml\r\nNT: urn:schemas-upnp-org:device:MediaServer:1\r\nNTS: ssdp:alive\r\nSERVER: Rust DLNA/1.0 UPnP/1.0\r\nUSN: uuid:",
    );
    push_str(&mut s, uuid);
    push_str(&mut s, "::urn:schemas-upnp-org:device:MediaServer:1\r\n\r\n");
    s
}

/// The URL of the device description of the server at `host:port`.
pub open spec fn device_description_url(host: Seq<char>, port: u16) -> Seq<char> {
    "http://"@ + host + ":"@ + decimal(port as nat) + "/description.xml"@
}

/// An SSDP search answer and an alive announcement point control points at
/// the same place, the device description at
/// `http://host:port/description.xml`, each on a `LOCATION` header line of
/// its own.
pub proof fn law_ssdp_location_is_the_device_description(host: Seq<char>, port: u16, uuid: Seq<char>)
    ensures
        exists|a: Seq<char>, b: Seq<char>|
            ssdp_response_text(host, port, uuid) == a + "\r\nLOCATION: "@ + device_description_url(host, port) + "\r\n"@
                + b,
        exists|a: Seq<char>, b: Seq<char>|
            ssdp_alive_text(host, port, uuid) == a + "\r\nLOCATION: "@ + device_description_url(host, port) + "\r\n"@
                + b,
{
    let d = decimal(port as nat);
    let u = device_description_url(host, port);
    reveal_strlit("\r\nLOCATION: ");
    reveal_strlit("\r\n");
    reveal_strlit("http://");
    reveal_strlit(":");
    reveal_strlit("/description.xml");
    reveal_strlit("::urn:schemas-upnp-org:device:MediaServer:1\r\n\r\n");

    reveal_strlit("HTTP/1.1 200 OK\r\nCACHE-CONTROL: max-age=1800\r\nEXT:\r\nLOCATION: http://");
    reveal_strlit("HTTP/1.1 200 OK\r\nCACHE-CONTROL: max-age=1800\r\nEXT:");
    reveal_strlit("/description.xml\r\nSERVER: Rust DLNA/1.0 UPnP/1.0\r\nST: urn:schemas-upnp-org:device:MediaServer:1\r\nUSN: uuid:");
    reveal_strlit("SERVER: Rust DLNA/1.0 UPnP/1.0\r\nST: urn:schemas-upnp-org:device:MediaServer:1\r\nUSN: uuid:");
    let ra = "HTTP/1.1 200 OK\r\nCACHE-CONTROL: max-age=1800\r\nEXT:"@;
    let rb = "SERVER: Rust DLNA/1.0 UPnP/1.0\r\nST: urn:schemas-upnp-org:device:MediaServer:1\r\nUSN: uuid:"@ + uuid
        + "::urn:schemas-upnp-org:device:MediaServer:1\r\n\r\n"@;
    assert("HTTP/1.1 200 OK\r\nCACHE-CONTROL: max-age=1800\r\nEXT:\r\nLOCATION: http://"@ =~= ra + "\r\nLOCATION: "@
        + "http://"@);
    assert("/description.xml\r\nSERVER: Rust DLNA/1.0 UPnP/1.0\r\nST: urn:schemas-upnp-org:device:MediaServer:1\r\nUSN: uuid:"@
        =~= "/description.xml"@ + "\r\n"@
        + "SERVER: Rust DLNA/1.0 UPnP/1.0\r\nST: urn:schemas-upnp-org:device:MediaServer:1\r\nUSN: uuid:"@);
    assert(ssdp_response_text(host, port, uuid) =~= ra + "\r\nLOCATION: "@ + u + "\r\n"@ + rb);

    reveal_strlit("NOTIFY * HTTP/1.1\r\nHOST: 239.255.255.250:1900\r\nCACHE-CONTROL: max-age=1800\r\nLOCATION: http://");
    reveal_strlit("NOTIFY * HTTP/1.1\r\nHOST: 239.255.255.250:1900\r\nCACHE-CONTROL: max-age=1800");
    reveal_strlit("/description.xml\r\nNT: urn:schemas-upnp-org:device:MediaServer:1\r\nNTS: ssdp:alive\r\nSERVER: Rust DLNA/1.0 UPnP/1.0\r\nUSN: uuid:");
    reveal_strlit("NT: urn:schemas-upnp-org:device:MediaServer:1\r\nNTS: ssdp:alive\r\nSERVER: Rust DLNA/1.0 UPnP/1.0\r\nUSN: uuid:");
    let aa = "NOTIFY * HTTP/1.1\r\nHOST: 239.255.255.250:1900\r\nCACHE-CONTROL: max-age=1800"@;
    let ab = "NT: urn:schemas-upnp-org:device:MediaServer:1\r\nNTS: ssdp:alive\r\nSERVER: Rust DLNA/1.0 UPnP/1.0\r\nUSN: uuid:"@
        + uuid + "::urn:schemas-upnp-org:device:MediaServer:1\r\n\r\n"@;
    assert("NOTIFY * HTTP/1.1\r\nHOST: 239.255.255.250:1900\r\nCACHE-CONTROL: max-age=1800\r\nLOCATION: http://"@ =~= aa
        + "\r\nLOCATION: "@ + "http://"@);
    assert("/description.xml\r\nNT: urn:schemas-upnp-org:device:MediaServer:1\r\nNTS: ssdp:alive\r\nSERVER: Rust DLNA/1.0 UPnP/1.0\r\nUSN: uuid:"@
        =~= "/description.xml"@ + "\r\n"@
        + "NT: urn:schemas-upnp-org:device:MediaServer:1\r\nNTS: ssdp:alive\r\nSERVER: Rust DLNA/1.0 UPnP/1.0\r\nUSN: uuid:"@);
    assert(ssdp_alive_text(host, port, uuid) =~= aa + "\r\nLOCATION: "@ + u + "\r\n"@ + ab);
}

/// An SSDP search answer and an alive announcement name the same device and
/// the same device type: the answer's `ST` and the announcement's `NT` are
/// both the media-server type, and both end with the line
/// `USN: uuid:<uuid>::<that type>` followed by the blank line that ends the
/// message.
pub proof fn law_ssdp_messages_name_the_media_server(host: Seq<char>, port: u16, uuid: Seq<char>)
    ensures
        exists|a: Seq<char>, b: Seq<char>|
            ssdp_response_text(host, port, uuid) == a + "\r\nST: urn:schemas-upnp-org:device:MediaServer:1\r\n"@ + b,
        exists|a: Seq<char>, b: Seq<char>|
            ssdp_alive_text(host, port, uuid) == a + "\r\nNT: urn:schemas-upnp-org:device:MediaServer:1\r\n"@ + b,
        exists|a: Seq<char>|
            ssdp_response_text(host, port, uuid) == a + "\r\nUSN: uuid:"@ + uuid
                + "::urn:schemas-upnp-org:device:MediaServer:1\r\n\r\n"@,
        exists|a: Seq<char>|
            ssdp_alive_text(host, port, uuid) == a + "\r\nUSN: uuid:"@ + uuid
                + "::urn:schemas-upnp-org:device:MediaServer:1\r\n\r\n"@,
{
    let d = decimal(port as nat);
    let tail = "::urn:schemas-upnp-org:device:MediaServer:1\r\n\r\n"@;
    reveal_strlit("\r\nST: urn:schemas-upnp-org:device:MediaServer:1\r\n");
    reveal_strlit("\r\nNT: urn:schemas-upnp-org:device:MediaServer:1\r\n");
    reveal_strlit("\r\nUSN: uuid:");
    reveal_strlit("/description.xml\r\nSERVER: Rust DLNA/1.0 UPnP/1.0");
    reveal_strlit("USN: uuid:");
    reveal_strlit("/description.xml\r\nSERVER: Rust DLNA/1.0 UPnP/1.0\r\nST: urn:schemas-upnp-org:device:MediaServer:1\r\nUSN: uuid:");
    let l1 = "HTTP/1.1 200 OK\r\nCACHE-CONTROL: max-age=1800\r\nEXT:\r\nLOCATION: http://"@ + host + ":"@ + d;
    assert("/description.xml\r\nSERVER: Rust DLNA/1.0 UPnP/1.0\r\nST: urn:schemas-upnp-org:device:MediaServer:1\r\nUSN: uuid:"@
        =~= "/description.xml\r\nSERVER: Rust DLNA/1.0 UPnP/1.0"@ + "\r\nST: urn:schemas-upnp-org:device:MediaServer:1\r\n"@
        + "USN: uuid:"@);
    assert(ssdp_response_text(host, port, uuid) =~= (l1 + "/description.xml\r\nSERVER: Rust DLNA/1.0 UPnP/1.0"@)
        + "\r\nST: urn:schemas-upnp-org:device:MediaServer:1\r\n"@ + ("USN: uuid:"@ + uuid + tail));
    assert("/description.xml\r\nSERVER: Rust DLNA/1.0 UPnP/1.0\r\nST: urn:schemas-upnp-org:device:MediaServer:1\r\nUSN: uuid:"@
        =~= "/description.xml\r\nSERVER: Rust DLNA/1.0 UPnP/1.0\r\nST: urn:schemas-upnp-org:device:MediaServer:1"@
        + "\r\nUSN: uuid:"@) by {
        reveal_strlit("/description.xml\r\nSERVER: Rust DLNA/1.0 UPnP/1.0\r\nST: urn:schemas-upnp-org:device:MediaServer:1");
    }
    assert(ssdp_response_text(host, port, uuid) =~= (l1
        + "/description.xml\r\nSERVER: Rust DLNA/1.0 UPnP/1.0\r\nST: urn:schemas-upnp-org:device:MediaServer:1"@)
        + "\r\nUSN: uuid:"@ + uuid + tail);

    reveal_strlit("/description.xml\r\nNT: urn:schemas-upnp-org:device:MediaServer:1\r\nNTS: ssdp:alive\r\nSERVER: Rust DLNA/1.0 UPnP/1.0\r\nUSN: uuid:");
    reveal_strlit("/description.xml");
    reveal_strlit("NTS: ssdp:alive\r\nSERVER: Rust DLNA/1.0 UPnP/1.0\r\nUSN: uuid:");
    reveal_strlit("/description.xml\r\nNT: urn:schemas-upnp-org:device:MediaServer:1\r\nNTS: ssdp:alive\r\nSERVER: Rust DLNA/1.0 UPnP/1.0");
    let m1 = "NOTIFY * HTTP/1.1\r\nHOST: 239.255.255.250:1900\r\nCACHE-CONTROL: max-age=1800\r\nLOCATION: http://"@ + host
        + ":"@ + d;
    assert("/description.xml\r\nNT: urn:schemas-upnp-org:device:MediaServer:1\r\nNTS: ssdp:alive\r\nSERVER: Rust DLNA/1.0 UPnP/1.0\r\nUSN: uuid:"@
        =~= "/description.xml"@ + "\r\nNT: urn:schemas-upnp-org:device:MediaServer:1\r\n"@
        + "NTS: ssdp:alive\r\nSERVER: Rust DLNA/1.0 UPnP/1.0\r\nUSN: uuid:"@);
    assert(ssdp_alive_text(host, port, uuid) =~= (m1 + "/description.xml"@)
        + "\r\nNT: urn:schemas-upnp-org:device:MediaServer:1\r\n"@ + ("NTS: ssdp:alive\r\nSERVER: Rust DLNA/1.0 UPnP/1.0\r\nUSN: uuid:"@
        + uuid + tail));
    assert("/description.xml\r\nNT: urn:schemas-upnp-org:device:MediaServer:1\r\nNTS: ssdp:alive\r\nSERVER: Rust DLNA/1.0 UPnP/1.0\r\nUSN: uuid:"@
        =~= "/description.xml\r\nNT: urn:schemas-upnp-org:device:MediaServer:1\r\nNTS: ssdp:alive\r\nSERVER: Rust DLNA/1.0 UPnP/1.0"@
        + "\r\nUSN: uuid:"@);
    assert(ssdp_alive_text(host, port, uuid) =~= (m1
        + "/description.xml\r\nNT: urn:schemas-upnp-org:device:MediaServer:1\r\nNTS: ssdp:alive\r\nSERVER: Rust DLNA/1.0 UPnP/1.0"@)
        + "\r\nUSN: uuid:"@ + uuid + tail);
}

/// Whether a datagram is an SSDP discovery search.
pub fn is_ssdp_search(request: &str) -> (res: bool)
    ensures
        res == (contains(request@, "M-SEARCH"@) && contains(request@, "ssdp:discover"@)),
{
    let r = chars_of(request);
    crate::linux_net::holds(r.as_slice(), "M-SEARCH") && crate::linux_net::holds(r.as_slice(), "ssdp:discover")
}

} // verus!
