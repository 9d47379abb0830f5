//! Debug renderings of strings and lists, as Rust's `{:?}` writes them.
use vstd::prelude::*;
use crate::ip::{hex, push_hex};
use crate::text::{decimal, push_char, push_decimal, push_str, texts};

verus! {

/// How `char::escape_debug` writes a character: itself when printable,
/// else an escape; for a character outside ASCII this is how `{:?}` writes
/// it inside a string.
pub uninterp spec fn debug_escape_of(c: char) -> Seq<char>;

/// Calls `char::escape_debug`, whose text is a function of the character
/// alone (Unicode's printable and grapheme-extend tables); this library
/// names it `debug_escape_of` and claims nothing else of it.
#[verifier::external_body]
fn escape_debug_text(c: char) -> (res: String)
    ensures
        res@ == debug_escape_of(c),
{
    c.escape_debug().to_string()
}

/// How one character appears inside a debug-quoted string: the usual
/// escapes for tab, carriage return, line feed, backslash, double quote and
/// NUL, `\u{..}` for other ASCII control characters, other ASCII as itself,
/// and a character beyond ASCII as `char::escape_debug` writes it.
pub open spec fn escape_char(c: char) -> Seq<char> {
    if c == '\t' {
        seq!['\\', 't']
    } else if c == '\r' {
        seq!['\\', 'r']
    } else if c == '\n' {
        seq!['\\', 'n']
    } else if c == '\\' {
        seq!['\\', '\\']
    } else if c == '"' {
        seq!['\\', '"']
    } else if c == '\0' {
        seq!['\\', '0']
    } else if (c as u32) < 0x20 || (c as u32) == 0x7f {
        seq!['\\', 'u', '{'] + hex(c as nat) + seq!['}']
    } else if (c as u32) < 0x80 {
        seq![c]
    } else {
        debug_escape_of(c)
    }
}

/// The escaped characters of a string.
pub open spec fn escaped(s: Seq<char>) -> Seq<char>
    decreases s.len(),
{
    if s.len() == 0 {
        Seq::empty()
    } else {
        escaped(s.drop_last()) + escape_char(s.last())
    }
}

/// A string as `{:?}` writes it: quoted and escaped.
pub open spec fn debug_str(s: Seq<char>) -> Seq<char> {
    seq!['"'] + escaped(s) + seq!['"']
}

/// The items of a list of strings, each debug-quoted, comma separated.
pub open spec fn debug_items(v: Seq<Seq<char>>) -> Seq<char>
    decreases v.len(),
{
    if v.len() == 0 {
        Seq::empty()
    } else if v.len() == 1 {
        debug_str(v[0])
    } else {
        debug_items(v.drop_last()) + seq![',', ' '] + debug_str(v.last())
    }
}

/// A list of strings as `{:?}` writes it.
pub open spec fn debug_list(v: Seq<Seq<char>>) -> Seq<char> {
    seq!['['] + debug_items(v) + seq![']']
}

/// The numbers of a list, comma separated.
pub open spec fn number_items(v: Seq<u16>) -> Seq<char>
    decreases v.len(),
{
    if v.len() == 0 {
        Seq::empty()
    } else if v.len() == 1 {
        decimal(v[0] as nat)
    } else {
        number_items(v.drop_last()) + seq![',', ' '] + decimal(v.last() as nat)
    }
}

/// A list of numbers as `{:?}` writes it.
pub open spec fn debug_numbers(v: Seq<u16>) -> Seq<char> {
    seq!['['] + number_items(v) + seq![']']
}

/// Appends the escaped form of one character.
pub fn push_escaped_char(s: &mut String, c: char)
    ensures
        final(s)@ == old(s)@ + escape_char(c),
{
    let ghost before = s@;
    if c == '\t' {
        push_char(s, '\\');
        push_char(s, 't');
    } else if c == '\r' {
        push_char(s, '\\');
        push_char(s, 'r');
    } else if c == '\n' {
        push_char(s, '\\');
        push_char(s, 'n');
    } else if c == '\\' {
        push_char(s, '\\');
        push_char(s, '\\');
    } else if c == '"' {
        push_char(s, '\\');
        push_char(s, '"');
    } else if c == '\0' {
        push_char(s, '\\');
        push_char(s, '0');
    } else if (c as u32) < 0x20 || (c as u32) == 0x7f {
        push_char(s, '\\');
        push_char(s, 'u');
        push_char(s, '{');
        push_hex(s, c as u32 as u16);
        push_char(s, '}');
    } else if (c as u32) < 0x80 {
        push_char(s, c);
    } else {
        let e = escape_debug_text(c);
        push_str(s, e.as_str());
    }
    proof {
        assert(s@ =~= before + escape_char(c));
    }
}

/// Appends a string as `{:?}` writes it.
pub fn push_debug_str(s: &mut String, t: &str)
    ensures
        final(s)@ == old(s)@ + debug_str(t@),
{
    let ghost before = s@;
    let cs = crate::text::chars_of(t);
    push_char(s, '"');
    let mut i: usize = 0;
    while i < cs.len()
        invariant
            i <= cs.len(),
            cs@ == t@,
            s@ =~= before + seq!['"'] + escaped(cs@.subrange(0, i as int)),
        decreases cs.len() - i,
    {
        proof {
            assert(cs@.subrange(0, i + 1).drop_last() =~= cs@.subrange(0, i as int));
        }
        push_escaped_char(s, cs[i]);
        i = i + 1;
    }
    push_char(s, '"');
    proof {
        assert(cs@.subrange(0, cs@.len() as int) =~= cs@);
        assert(s@ =~= before + debug_str(t@));
    }
}

/// A list of strings as `{:?}` writes it.
pub fn debug_string_list(v: &Vec<String>) -> (res: String)
    ensures
        res@ == debug_list(texts(v@)),
{
    let mut s = String::new();
    push_char(&mut s, '[');
    let mut i: usize = 0;
    while i < v.len()
        invariant
            i <= v.len(),
            s@ =~= seq!['['] + debug_items(texts(v@).subrange(0, i as int)),
        decreases v.len() - i,
    {
        let ghost prefix = texts(v@).subrange(0, i + 1);
        proof {
            assert(prefix.drop_last() =~= texts(v@).subrange(0, i as int));
        }
        if i > 0 {
            push_char(&mut s, ',');
            push_char(&mut s, ' ');
        }
        push_debug_str(&mut s, v[i].as_str());
        proof {
            if i == 0 {
                assert(s@ =~= seq!['['] + debug_items(prefix));
            } else {
                assert(s@ =~= seq!['['] + debug_items(prefix));
            }
        }
        i = i + 1;
    }
    push_char(&mut s, ']');
    proof {
        assert(texts(v@).subrange(0, v@.len() as int) =~= texts(v@));
    }
    s
}

/// A list of numbers as `{:?}` writes it.
pub fn debug_number_list(v: &Vec<u16>) -> (res: String)
    ensures
        res@ == debug_numbers(v@),
{
    let mut s = String::new();
    push_char(&mut s, '[');
    let mut i: usize = 0;
    while i < v.len()
        invariant
            i <= v.len(),
            s@ =~= seq!['['] + number_items(v@.subrange(0, i as int)),
        decreases v.len() - i,
    {
        let ghost prefix = v@.subrange(0, i + 1);
        proof {
            assert(prefix.drop_last() =~= v@.subrange(0, i as int));
        }
        if i > 0 {
            push_char(&mut s, ',');
            push_char(&mut s, ' ');
        }
        push_decimal(&mut s, v[i] as u64);
        proof {
            assert(s@ =~= seq!['['] + number_items(prefix));
        }
        i = i + 1;
    }
    push_char(&mut s, ']');
    proof {
        assert(v@.subrange(0, v@.len() as int) =~= v@);
    }
    s
}

} // verus!
