//! What the operating system says of itself: the version strings and the
//! key/value metadata read from `/etc/os-release`, `sw_vers` and the
//! Windows environment.
use vstd::prelude::*;
use crate::text::{
    chars_of, find_char, find_first_char, lines, lookup, lower_chars, lowercase_of, owned, push_str, slice_chars,
    split_lines, string_of, trim, trimmed, views,
};

verus! {

// ---------------------------------------------------------------------------
// Key/value lists
// ---------------------------------------------------------------------------

/// No two pairs share a key.
pub open spec fn keys_distinct(m: Seq<(String, String)>) -> bool {
    forall|i: int, j: int| 0 <= i < j < m.len() ==> m[i].0@ != m[j].0@
}

proof fn lemma_lookup_at(m: Seq<(String, String)>, i: int)
    requires
        0 <= i < m.len(),
        keys_distinct(m),
    ensures
        lookup(m, m[i].0@) == Some(m[i].1@),
    decreases m.len(),
{
    if i > 0 {
        let rest = m.subrange(1, m.len() as int);
        assert(m[0].0@ != m[i].0@);
        assert(rest[i - 1] == m[i]);
        assert(keys_distinct(rest)) by {
            assert forall|a: int, b: int| 0 <= a < b < rest.len() implies rest[a].0@ != rest[b].0@ by {
                assert(rest[a] == m[a + 1] && rest[b] == m[b + 1]);
            }
        }
        lemma_lookup_at(rest, i - 1);
    }
}

proof fn lemma_lookup_absent(m: Seq<(String, String)>, k: Seq<char>)
    requires
        forall|i: int| 0 <= i < m.len() ==> (#[trigger] m[i]).0@ != k,
    ensures
        lookup(m, k) is None,
    decreases m.len(),
{
    if m.len() > 0 {
        let rest = m.subrange(1, m.len() as int);
        assert forall|i: int| 0 <= i < rest.len() implies (#[trigger] rest[i]).0@ != k by {
            assert(rest[i] == m[i + 1]);
        }
        assert(m[0].0@ != k);
        lemma_lookup_absent(rest, k);
    }
}

proof fn lemma_lookup_of_distinct(m: Seq<(String, String)>, k: Seq<char>)
    requires
        keys_distinct(m),
    ensures
        match lookup(m, k) {
            Some(v) => exists|i: int| 0 <= i < m.len() && m[i].0@ == k && m[i].1@ == v,
            None => forall|i: int| 0 <= i < m.len() ==> (#[trigger] m[i]).0@ != k,
        },
{
    if exists|i: int| 0 <= i < m.len() && m[i].0@ == k {
        let i = choose|i: int| 0 <= i < m.len() && m[i].0@ == k;
        lemma_lookup_at(m, i);
    } else {
        lemma_lookup_absent(m, k);
    }
}

/// Set `key` to `value`, replacing its earlier value if it has one.
pub fn insert_entry(m: &mut Vec<(String, String)>, key: String, value: String)
    requires
        keys_distinct(old(m)@),
    ensures
        keys_distinct(final(m)@),
        forall|k: Seq<char>| #[trigger] lookup(final(m)@, k) == if k == key@ {
            Some(value@)
        } else {
            lookup(old(m)@, k)
        },
{
    let kc = chars_of(key.as_str());
    let mut i: usize = 0;
    while i < m.len()
        invariant
            i <= m.len(),
            m@ == old(m)@,
            kc@ == key@,
            keys_distinct(m@),
            forall|j: int| 0 <= j < i ==> (#[trigger] m@[j]).0@ != key@,
        decreases m.len() - i,
    {
        if crate::text::same_chars(chars_of(m[i].0.as_str()).as_slice(), kc.as_slice()) {
            let ghost before = m@;
            let ghost v = value@;
            m.set(i, (key, value));
            proof {
                assert forall|a: int, b: int| 0 <= a < b < m@.len() implies m@[a].0@ != m@[b].0@ by {
                    if a != i && b != i {
                        assert(m@[a] == before[a] && m@[b] == before[b]);
                    } else if a == i {
                        assert(m@[b] == before[b]);
                        assert(before[a].0@ != before[b].0@);
                    } else {
                        assert(m@[a] == before[a]);
                        assert(before[a].0@ != before[b].0@);
                    }
                }
                assert forall|k: Seq<char>| #[trigger] lookup(m@, k) == if k == key@ {
                    Some(v)
                } else {
                    lookup(before, k)
                } by {
                    lemma_lookup_of_distinct(m@, k);
                    lemma_lookup_of_distinct(before, k);
                    if k == key@ {
                        lemma_lookup_at(m@, i as int);
                    } else {
                        if exists|j: int| 0 <= j < before.len() && before[j].0@ == k {
                            let j = choose|j: int| 0 <= j < before.len() && before[j].0@ == k;
                            assert(j != i);
                            assert(m@[j] == before[j]);
                            lemma_lookup_at(m@, j);
                            lemma_lookup_at(before, j);
                        } else {
                            assert forall|j: int| 0 <= j < m@.len() implies (#[trigger] m@[j]).0@ != k by {
                                if j != i {
                                    assert(m@[j] == before[j]);
                                }
                            }
                            lemma_lookup_absent(m@, k);
                        }
                    }
                }
            }
            return;
        }
        i = i + 1;
    }
    let ghost before = m@;
    let ghost kv = key@;
    let ghost vv = value@;
    m.push((key, value));
    proof {
        assert forall|a: int, b: int| 0 <= a < b < m@.len() implies m@[a].0@ != m@[b].0@ by {
            if b < before.len() {
                assert(m@[a] == before[a] && m@[b] == before[b]);
            } else {
                assert(m@[a] == before[a]);
            }
        }
        assert forall|k: Seq<char>| #[trigger] lookup(m@, k) == if k == kv {
            Some(vv)
        } else {
            lookup(before, k)
        } by {
            lemma_lookup_of_distinct(m@, k);
            lemma_lookup_of_distinct(before, k);
            if k == kv {
                lemma_lookup_at(m@, before.len() as int);
            } else if exists|j: int| 0 <= j < before.len() && before[j].0@ == k {
                let j = choose|j: int| 0 <= j < before.len() && before[j].0@ == k;
                assert(m@[j] == before[j]);
                lemma_lookup_at(m@, j);
                lemma_lookup_at(before, j);
            } else {
                assert forall|j: int| 0 <= j < m@.len() implies (#[trigger] m@[j]).0@ != k by {
                    if j < before.len() {
                        assert(m@[j] == before[j]);
                    }
                }
                lemma_lookup_absent(m@, k);
            }
        }
    }
}

/// Setting a key and then reading it gives the value set; other keys keep
/// what they had.
pub proof fn law_insert_then_lookup(before: Seq<(String, String)>, after: Seq<(String, String)>, key: Seq<char>, value: Seq<char>, other: Seq<char>)
    requires
        forall|k: Seq<char>| #[trigger] lookup(after, k) == if k == key {
            Some(value)
        } else {
            lookup(before, k)
        },
        other != key,
    ensures
        lookup(after, key) == Some(value),
        lookup(after, other) == lookup(before, other),
{
    assert(lookup(after, key) == Some(value));
    assert(lookup(after, other) == lookup(before, other));
}

// ---------------------------------------------------------------------------
// Reading `key=value` and `key: value` lines
// ---------------------------------------------------------------------------

/// `s` without its leading and trailing double quotes (`trim_matches('"')`).
pub open spec fn trim_quotes(s: Seq<char>) -> Seq<char>
    decreases s.len(),
{
    if s.len() > 0 && s[0] == '"' {
        trim_quotes(s.drop_first())
    } else if s.len() > 0 && s.last() == '"' {
        trim_quotes(s.drop_last())
    } else {
        s
    }
}

/// `s` with each space replaced by an underscore.
pub open spec fn underscored(s: Seq<char>) -> Seq<char> {
    s.map_values(|c: char| if c == ' ' { '_' } else { c })
}

/// The entry one line gives: split at the first `sep`; an os-release line
/// (`sep` `=`) gives the lower-case key and the value without quotes; a
/// `sw_vers` line (`sep` `:`) gives the trimmed lower-case key with spaces
/// made underscores and the trimmed value.
pub open spec fn line_entry(line: Seq<char>, sep: char) -> Option<(Seq<char>, Seq<char>)> {
    match find_char(line, sep) {
        Some(k) => {
            let key = line.subrange(0, k);
            let value = line.subrange(k + 1, line.len() as int);
            if sep == '=' {
                Some((lowercase_of(key), trim_quotes(value)))
            } else {
                Some((underscored(lowercase_of(trim(key))), trim(value)))
            }
        },
        None => None,
    }
}

/// The value the last of the lines gives `key`, if any gives it one.
pub open spec fn last_value(ls: Seq<Seq<char>>, sep: char, key: Seq<char>) -> Option<Seq<char>>
    decreases ls.len(),
{
    if ls.len() == 0 {
        None
    } else {
        match line_entry(ls.last(), sep) {
            Some((k, v)) => if k == key {
                Some(v)
            } else {
                last_value(ls.drop_last(), sep, key)
            },
            None => last_value(ls.drop_last(), sep, key),
        }
    }
}

fn trim_quotes_exec(s: &[char]) -> (res: Vec<char>)
    ensures
        res@ == trim_quotes(s@),
{
    let mut a: usize = 0;
    let mut b: usize = s.len();
    proof {
        assert(s@.subrange(0, s@.len() as int) =~= s@);
    }
    while a < b && (s[a] == '"' || s[b - 1] == '"')
        invariant
            a <= b <= s.len(),
            trim_quotes(s@) == trim_quotes(s@.subrange(a as int, b as int)),
        decreases b - a,
    {
        let ghost cur = s@.subrange(a as int, b as int);
        if s[a] == '"' {
            proof {
                assert(cur[0] == s@[a as int]);
                assert(cur.drop_first() =~= s@.subrange(a + 1, b as int));
            }
            a = a + 1;
        } else {
            proof {
                assert(cur[0] == s@[a as int]);
                assert(cur.last() == s@[b - 1]);
                assert(cur.drop_last() =~= s@.subrange(a as int, b - 1));
            }
            b = b - 1;
        }
    }
    proof {
        let cur = s@.subrange(a as int, b as int);
        if a < b {
            assert(cur[0] == s@[a as int]);
            assert(cur.last() == s@[b - 1]);
        }
    }
    slice_chars(s, a, b)
}

fn underscored_exec(s: &[char]) -> (res: Vec<char>)
    ensures
        res@ == underscored(s@),
{
    let mut r: Vec<char> = Vec::new();
    let mut i: usize = 0;
    while i < s.len()
        invariant
            i <= s.len(),
            r@ =~= underscored(s@.subrange(0, i as int)),
        decreases s.len() - i,
    {
        r.push(if s[i] == ' ' { '_' } else { s[i] });
        i = i + 1;
    }
    proof {
        assert(s@.subrange(0, s@.len() as int) =~= s@);
    }
    r
}

fn entry_of_line(line: &[char], sep: char) -> (res: Option<(String, String)>)
    ensures
        match line_entry(line@, sep) {
            Some((k, v)) => res matches Some(p) && p.0@ == k && p.1@ == v,
            None => res is None,
        },
{
    match find_first_char(line, sep) {
        Some(k) => {
            proof {
                crate::text::lemma_find_char(line@, sep);
            }
            assert(k < line.len());
            let key = slice_chars(line, 0, k);
            let value = slice_chars(line, k + 1, line.len());
            if sep == '=' {
                let lk = lower_chars(key.as_slice());
                let v = trim_quotes_exec(value.as_slice());
                Some((string_of(lk.as_slice()), string_of(v.as_slice())))
            } else {
                let tk = trimmed(key.as_slice());
                let lk = lower_chars(tk.as_slice());
                let uk = underscored_exec(lk.as_slice());
                let v = trimmed(value.as_slice());
                Some((string_of(uk.as_slice()), string_of(v.as_slice())))
            }
        },
        None => None,
    }
}

/// Add the entries of each line of `text`, a later line winning.
fn add_line_entries(m: &mut Vec<(String, String)>, text: &str, sep: char)
    requires
        keys_distinct(old(m)@),
    ensures
        keys_distinct(final(m)@),
        forall|k: Seq<char>| #[trigger] lookup(final(m)@, k) == match last_value(lines(text@), sep, k) {
            Some(v) => Some(v),
            None => lookup(old(m)@, k),
        },
{
    let ls = split_lines(chars_of(text).as_slice());
    let ghost start = m@;
    let mut i: usize = 0;
    while i < ls.len()
        invariant
            i <= ls.len(),
            views(ls@) == lines(text@),
            keys_distinct(m@),
            forall|k: Seq<char>| #[trigger] lookup(m@, k) == match last_value(views(ls@).subrange(0, i as int), sep, k) {
                Some(v) => Some(v),
                None => lookup(start, k),
            },
        decreases ls.len() - i,
    {
        proof {
            assert(views(ls@).subrange(0, i + 1).drop_last() =~= views(ls@).subrange(0, i as int));
            assert(views(ls@)[i as int] == ls@[i as int]@);
        }
        match entry_of_line(ls[i].as_slice(), sep) {
            Some((k, v)) => {
                insert_entry(m, k, v);
            },
            None => {},
        }
        i = i + 1;
    }
    proof {
        assert(views(ls@).subrange(0, ls@.len() as int) =~= views(ls@));
    }
}

// ---------------------------------------------------------------------------
// Versions
// ---------------------------------------------------------------------------

/// The version an os-release file gives: its name and version, or its
/// name alone; nothing without a name.
pub open spec fn os_release_version(contents: Seq<char>) -> Option<Seq<char>> {
    match (last_value(lines(contents), '=', "name"@), last_value(lines(contents), '=', "version"@)) {
        (Some(n), Some(v)) => Some(n + " "@ + v),
        (Some(n), None) => Some(n),
        _ => None,
    }
}

fn raw_value(ls: &Vec<Vec<char>>, key: &str) -> (res: Option<String>)
    ensures
        match last_value(views(ls@), '=', key@) {
            Some(v) => res matches Some(r) && r@ == v,
            None => res is None,
        },
{
    let mut found: Option<String> = None;
    let mut i: usize = 0;
    while i < ls.len()
        invariant
            i <= ls.len(),
            match last_value(views(ls@).subrange(0, i as int), '=', key@) {
                Some(v) => found matches Some(r) && r@ == v,
                None => found is None,
            },
        decreases ls.len() - i,
    {
        proof {
            assert(views(ls@).subrange(0, i + 1).drop_last() =~= views(ls@).subrange(0, i as int));
            assert(views(ls@)[i as int] == ls@[i as int]@);
        }
        match entry_of_line(ls[i].as_slice(), '=') {
            Some((k, v)) => {
                if crate::text::same_chars(chars_of(k.as_str()).as_slice(), chars_of(key).as_slice()) {
                    found = Some(v);
                }
            },
            None => {},
        }
        i = i + 1;
    }
    proof {
        assert(views(ls@).subrange(0, ls@.len() as int) =~= views(ls@));
    }
    found
}

/// The Linux version that the contents of `/etc/os-release` give, if any.
pub fn linux_version_from_os_release(contents: &str) -> (res: Option<String>)
    ensures
        match os_release_version(contents@) {
            Some(v) => res matches Some(r) && r@ == v,
            None => res is None,
        },
{
    let ls = split_lines(chars_of(contents).as_slice());
    let name = raw_value(&ls, "name");
    let version = raw_value(&ls, "version");
    match (name, version) {
        (Some(n), Some(v)) => {
            let mut s = n;
            push_str(&mut s, " ");
            push_str(&mut s, v.as_str());
            Some(s)
        },
        (Some(n), None) => Some(n),
        _ => None,
    }
}

/// The Linux version: from os-release when it names the system, else what
/// `uname -sr` printed, else an unknown version.
pub fn linux_version(os_release: Option<&str>, uname: Option<&str>) -> (res: String)
    ensures
        res@ == match os_release {
            Some(c) => match os_release_version(c@) {
                Some(v) => v,
                None => match uname {
                    Some(u) => trim(u@),
                    None => "Linux (unknown version)"@,
                },
            },
            None => match uname {
                Some(u) => trim(u@),
                None => "Linux (unknown version)"@,
            },
        },
{
    match os_release {
        Some(c) => match linux_version_from_os_release(c) {
            Some(v) => {
                return v;
            },
            None => {},
        },
        None => {},
    }
    match uname {
        Some(u) => string_of(trimmed(chars_of(u).as_slice()).as_slice()),
        None => owned("Linux (unknown version)"),
    }
}

/// The macOS version from what `sw_vers -productVersion` printed.
pub fn macos_version(product_version: Option<&str>) -> (res: String)
    ensures
        res@ == match product_version {
            Some(v) => "macOS "@ + trim(v@),
            None => "macOS (unknown version)"@,
        },
{
    match product_version {
        Some(v) => {
            let mut s = owned("macOS ");
            push_str(&mut s, string_of(trimmed(chars_of(v).as_slice()).as_slice()).as_str());
            s
        },
        None => owned("macOS (unknown version)"),
    }
}

/// The Windows version from the `OS` and `PROCESSOR_ARCHITECTURE`
/// variables.
pub fn windows_version(os_var: Option<&str>, arch: Option<&str>) -> (res: String)
    ensures
        res@ == match os_var {
            Some(o) => if crate::text::contains(o@, "Windows"@) {
                match arch {
                    Some(a) => "Windows ("@ + a@ + ")"@,
                    None => "Windows"@,
                }
            } else {
                "Windows (unknown version)"@
            },
            None => "Windows (unknown version)"@,
        },
{
    match os_var {
        Some(o) => {
            if crate::linux_net::holds(chars_of(o).as_slice(), "Windows") {
                match arch {
                    Some(a) => crate::text::concat3("Windows (", a, ")"),
                    None => owned("Windows"),
                }
            } else {
                owned("Windows (unknown version)")
            }
        },
        None => owned("Windows (unknown version)"),
    }
}

// ---------------------------------------------------------------------------
// Metadata
// ---------------------------------------------------------------------------

/// The value a later setting gives `key`, else the earlier one.
pub open spec fn or_else(later: Option<Seq<char>>, earlier: Option<Seq<char>>) -> Option<Seq<char>> {
    match later {
        Some(v) => Some(v),
        None => earlier,
    }
}

/// The value of a fixed key when `key` is it.
pub open spec fn fixed(key: Seq<char>, name: Seq<char>, value: Option<Seq<char>>) -> Option<Seq<char>> {
    if key == name {
        value
    } else {
        None
    }
}

/// An optional text, trimmed.
pub open spec fn trimmed_opt(o: Option<&str>) -> Option<Seq<char>> {
    match o {
        Some(s) => Some(trim(s@)),
        None => None,
    }
}

/// An optional text as it is.
pub open spec fn raw_opt(o: Option<&str>) -> Option<Seq<char>> {
    match o {
        Some(s) => Some(s@),
        None => None,
    }
}

fn insert_opt(m: &mut Vec<(String, String)>, key: &str, value: Option<&str>, trim_it: bool)
    requires
        keys_distinct(old(m)@),
    ensures
        keys_distinct(final(m)@),
        forall|k: Seq<char>| #[trigger] lookup(final(m)@, k) == or_else(
            fixed(k, key@, if trim_it { trimmed_opt(value) } else { raw_opt(value) }),
            lookup(old(m)@, k),
        ),
{
    match value {
        Some(v) => {
            let text = if trim_it {
                string_of(trimmed(chars_of(v).as_slice()).as_slice())
            } else {
                owned(v)
            };
            insert_entry(m, owned(key), text);
        },
        None => {},
    }
}

/// The Linux metadata: the platform, then the os-release entries (keys in
/// lower case), the kernel version, the host name and the architecture,
/// each later setting winning.
pub fn gather_linux_metadata(
    os_release: Option<&str>,
    kernel: Option<&str>,
    hostname: Option<&str>,
    architecture: Option<&str>,
) -> (res: Vec<(String, String)>)
    ensures
        keys_distinct(res@),
        forall|k: Seq<char>| #[trigger] lookup(res@, k) == or_else(
            fixed(k, "architecture"@, trimmed_opt(architecture)),
            or_else(
                fixed(k, "hostname"@, trimmed_opt(hostname)),
                or_else(
                    fixed(k, "kernel_version"@, trimmed_opt(kernel)),
                    or_else(
                        match os_release {
                            Some(c) => last_value(lines(c@), '=', k),
                            None => None,
                        },
                        fixed(k, "platform"@, Some("Linux"@)),
                    ),
                ),
            ),
        ),
{
    let mut m: Vec<(String, String)> = Vec::new();
    insert_entry(&mut m, owned("platform"), owned("Linux"));
    match os_release {
        Some(c) => add_line_entries(&mut m, c, '='),
        None => {},
    }
    insert_opt(&mut m, "kernel_version", kernel, true);
    insert_opt(&mut m, "hostname", hostname, true);
    insert_opt(&mut m, "architecture", architecture, true);
    m
}

/// The macOS metadata: the platform, then the `sw_vers` entries, the
/// hardware architecture and the host name, each later setting winning.
pub fn gather_macos_metadata(
    sw_vers: Option<&str>,
    architecture: Option<&str>,
    hostname: Option<&str>,
) -> (res: Vec<(String, String)>)
    ensures
        keys_distinct(res@),
        forall|k: Seq<char>| #[trigger] lookup(res@, k) == or_else(
            fixed(k, "hostname"@, trimmed_opt(hostname)),
            or_else(
                fixed(k, "hardware_architecture"@, trimmed_opt(architecture)),
                or_else(
                    match sw_vers {
                        Some(c) => last_value(lines(c@), ':', k),
                        None => None,
                    },
                    fixed(k, "platform"@, Some("macOS"@)),
                ),
            ),
        ),
{
    let mut m: Vec<(String, String)> = Vec::new();
    insert_entry(&mut m, owned("platform"), owned("macOS"));
    match sw_vers {
        Some(c) => add_line_entries(&mut m, c, ':'),
        None => {},
    }
    insert_opt(&mut m, "hardware_architecture", architecture, true);
    insert_opt(&mut m, "hostname", hostname, true);
    m
}

/// The Windows metadata from the environment, values as they are: computer
/// name, user domain, processor architecture, number of processors, and the
/// platform.
pub fn gather_windows_metadata(
    computer_name: Option<&str>,
    user_domain: Option<&str>,
    processor_architecture: Option<&str>,
    number_of_processors: Option<&str>,
) -> (res: Vec<(String, String)>)
    ensures
        keys_distinct(res@),
        forall|k: Seq<char>| #[trigger] lookup(res@, k) == or_else(
            fixed(k, "platform"@, Some("Windows"@)),
            or_else(
                fixed(k, "number_of_processors"@, raw_opt(number_of_processors)),
                or_else(
                    fixed(k, "processor_architecture"@, raw_opt(processor_architecture)),
                    or_else(
                        fixed(k, "user_domain"@, raw_opt(user_domain)),
                        fixed(k, "computer_name"@, raw_opt(computer_name)),
                    ),
                ),
            ),
        ),
{
    let mut m: Vec<(String, String)> = Vec::new();
    insert_opt(&mut m, "computer_name", computer_name, false);
    insert_opt(&mut m, "user_domain", user_domain, false);
    insert_opt(&mut m, "processor_architecture", processor_architecture, false);
    insert_opt(&mut m, "number_of_processors", number_of_processors, false);
    insert_entry(&mut m, owned("platform"), owned("Windows"));
    m
}

} // verus!
