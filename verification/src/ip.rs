//! IP addresses of network interfaces: the textual IPv4 form that interface
//! listings carry, its parser and its rendering.
use vstd::prelude::*;
use crate::text::{
    all_digits, decimal, digit_char, digit_of, digits_value, find, is_digit, push_char, push_chars,
    push_decimal, push_str, split, split_on, views,
};

verus! {

/// An IP address.
#[derive(Debug, Clone, Copy, PartialEq, Eq, Structural)]
pub enum IpAddress {
    V4(u8, u8, u8, u8),
    V6(u16, u16, u16, u16, u16, u16, u16, u16),
}

/// One dotted-quad component: one to three ASCII digits, no leading zero
/// unless the component is `0` itself, value at most 255.
pub open spec fn valid_octet_text(p: Seq<char>) -> bool {
    &&& 1 <= p.len() <= 3
    &&& all_digits(p)
    &&& (p.len() > 1 ==> p[0] != '0')
    &&& digits_value(p) <= 255
}

/// The IPv4 address that `s` denotes in dotted-quad notation, if any.
pub open spec fn parse_ipv4(s: Seq<char>) -> Option<IpAddress> {
    let parts = split(s, '.');
    if parts.len() == 4 && valid_octet_text(parts[0]) && valid_octet_text(parts[1])
        && valid_octet_text(parts[2]) && valid_octet_text(parts[3]) {
        Some(
            IpAddress::V4(
                digits_value(parts[0]) as u8,
                digits_value(parts[1]) as u8,
                digits_value(parts[2]) as u8,
                digits_value(parts[3]) as u8,
            ),
        )
    } else {
        None
    }
}

/// The textual form of an address: dotted quad for IPv4.
pub open spec fn ipv4_text(a: u8, b: u8, c: u8, d: u8) -> Seq<char> {
    decimal(a as nat) + seq!['.'] + decimal(b as nat) + seq!['.'] + decimal(c as nat) + seq!['.']
        + decimal(d as nat)
}

/// Lower-case hexadecimal digits of a 16-bit group, without leading zeros.
pub open spec fn hex(n: nat) -> Seq<char>
    decreases n,
{
    if n < 16 {
        seq![hex_digit(n)]
    } else {
        hex(n / 16).push(hex_digit(n % 16))
    }
}

pub open spec fn hex_digit(d: nat) -> char {
    if d < 10 {
        digit_char(d)
    } else if d == 10 {
        'a'
    } else if d == 11 {
        'b'
    } else if d == 12 {
        'c'
    } else if d == 13 {
        'd'
    } else if d == 14 {
        'e'
    } else {
        'f'
    }
}

/// Groups in hexadecimal, colon separated.
pub open spec fn joined_hex(s: Seq<u16>) -> Seq<char>
    decreases s.len(),
{
    if s.len() == 0 {
        Seq::empty()
    } else if s.len() == 1 {
        hex(s[0] as nat)
    } else {
        joined_hex(s.drop_last()) + seq![':'] + hex(s.last() as nat)
    }
}

/// The first longest run of zero groups from position `i` on, given the
/// run in progress and the longest so far, as (start, length).
pub open spec fn zero_run(s: Seq<u16>, i: int, cur: (int, int), best: (int, int)) -> (int, int)
    decreases s.len() - i,
{
    if i < 0 || i >= s.len() {
        best
    } else if s[i] == 0 {
        let c = (if cur.1 == 0 { i } else { cur.0 }, cur.1 + 1);
        zero_run(s, i + 1, c, if c.1 > best.1 { c } else { best })
    } else {
        zero_run(s, i + 1, (0, 0), best)
    }
}

/// The textual form of an IPv6 address (as `Ipv6Addr`'s `Display` writes
/// it): an IPv4-mapped address as `::ffff:` and a dotted quad; otherwise the
/// groups in hexadecimal with the first longest run of two or more zero
/// groups written `::`.
pub open spec fn ipv6_text(s: Seq<u16>) -> Seq<char> {
    if s.len() == 8 && s[0] == 0 && s[1] == 0 && s[2] == 0 && s[3] == 0 && s[4] == 0 && s[5] == 0xffff {
        "::ffff:"@ + ipv4_text((s[6] / 256) as u8, (s[6] % 256) as u8, (s[7] / 256) as u8, (s[7] % 256) as u8)
    } else {
        let z = zero_run(s, 0, (0, 0), (0, 0));
        if z.1 > 1 {
            joined_hex(s.subrange(0, z.0)) + seq![':', ':'] + joined_hex(s.subrange(z.0 + z.1, s.len() as int))
        } else {
            joined_hex(s)
        }
    }
}

impl IpAddress {
    /// The textual form of the address.
    pub open spec fn text(self) -> Seq<char> {
        match self {
            IpAddress::V4(a, b, c, d) => ipv4_text(a, b, c, d),
            IpAddress::V6(a, b, c, d, e, f, g, h) => ipv6_text(seq![a, b, c, d, e, f, g, h]),
        }
    }

    /// The loopback address `127.0.0.1`.
    pub fn localhost() -> (res: IpAddress)
        ensures
            res == IpAddress::V4(127, 0, 0, 1),
    {
        IpAddress::V4(127, 0, 0, 1)
    }

    /// The unspecified address `0.0.0.0`.
    pub fn unspecified() -> (res: IpAddress)
        ensures
            res == IpAddress::V4(0, 0, 0, 0),
    {
        IpAddress::V4(0, 0, 0, 0)
    }

    /// Renders the address: dotted quad for IPv4; for IPv6, lowercase
    /// hexadecimal groups with the longest run of zero groups shortened.
    pub fn to_text(&self) -> (res: String)
        ensures
            res@ == self.text(),
    {
        let mut s = String::new();
        match *self {
            IpAddress::V4(a, b, c, d) => {
                push_decimal(&mut s, a as u64);
                push_char(&mut s, '.');
                push_decimal(&mut s, b as u64);
                push_char(&mut s, '.');
                push_decimal(&mut s, c as u64);
                push_char(&mut s, '.');
                push_decimal(&mut s, d as u64);
                proof {
                    assert(s@ =~= ipv4_text(a, b, c, d));
                }
            },
            IpAddress::V6(a, b, c, d, e, f, g, h) => {
                let mut g8: Vec<u16> = Vec::new();
                g8.push(a);
                g8.push(b);
                g8.push(c);
                g8.push(d);
                g8.push(e);
                g8.push(f);
                g8.push(g);
                g8.push(h);
                proof {
                    assert(g8@ =~= seq![a, b, c, d, e, f, g, h]);
                }
                push_ipv6(&mut s, &g8);
            },
        }
        s
    }
}

fn push_joined_hex(s: &mut String, g: &Vec<u16>, a: usize, b: usize)
    requires
        a <= b <= g.len(),
    ensures
        final(s)@ == old(s)@ + joined_hex(g@.subrange(a as int, b as int)),
{
    let mut i: usize = a;
    proof {
        assert(g@.subrange(a as int, a as int) =~= Seq::<u16>::empty());
    }
    while i < b
        invariant
            a <= i <= b,
            b <= g.len(),
            s@ == old(s)@ + joined_hex(g@.subrange(a as int, i as int)),
        decreases b - i,
    {
        proof {
            assert(g@.subrange(a as int, i + 1).drop_last() =~= g@.subrange(a as int, i as int));
        }
        if i > a {
            push_char(s, ':');
        }
        push_hex(s, g[i]);
        proof {
            if i == a {
                assert(g@.subrange(a as int, i + 1) =~= seq![g@[i as int]]);
                assert(s@ =~= old(s)@ + joined_hex(g@.subrange(a as int, i + 1)));
            } else {
                assert(s@ =~= old(s)@ + joined_hex(g@.subrange(a as int, i + 1)));
            }
        }
        i = i + 1;
    }
}

fn longest_zero_run(g: &Vec<u16>) -> (res: (usize, usize))
    ensures
        res.0 as int == zero_run(g@, 0, (0, 0), (0, 0)).0,
        res.1 as int == zero_run(g@, 0, (0, 0), (0, 0)).1,
        res.0 + res.1 <= g@.len(),
{
    let mut cur_start: usize = 0;
    let mut cur_len: usize = 0;
    let mut best_start: usize = 0;
    let mut best_len: usize = 0;
    let mut i: usize = 0;
    while i < g.len()
        invariant
            i <= g.len(),
            cur_start + cur_len == i || cur_len == 0,
            cur_len <= i,
            best_start + best_len <= i,
            zero_run(g@, 0, (0, 0), (0, 0)) == zero_run(
                g@,
                i as int,
                (cur_start as int, cur_len as int),
                (best_start as int, best_len as int),
            ),
        decreases g.len() - i,
    {
        if g[i] == 0 {
            if cur_len == 0 {
                cur_start = i;
            }
            cur_len = cur_len + 1;
            if cur_len > best_len {
                best_start = cur_start;
                best_len = cur_len;
            }
        } else {
            cur_start = 0;
            cur_len = 0;
        }
        i = i + 1;
    }
    (best_start, best_len)
}

fn push_ipv6(s: &mut String, g: &Vec<u16>)
    requires
        g@.len() == 8,
    ensures
        final(s)@ == old(s)@ + ipv6_text(g@),
{
    if g[0] == 0 && g[1] == 0 && g[2] == 0 && g[3] == 0 && g[4] == 0 && g[5] == 0xffff {
        push_str(s, "::ffff:");
        push_decimal(s, (g[6] / 256) as u64);
        push_char(s, '.');
        push_decimal(s, (g[6] % 256) as u64);
        push_char(s, '.');
        push_decimal(s, (g[7] / 256) as u64);
        push_char(s, '.');
        push_decimal(s, (g[7] % 256) as u64);
        proof {
            assert(s@ =~= old(s)@ + ("::ffff:"@ + ipv4_text(
                (g@[6] / 256) as u8,
                (g@[6] % 256) as u8,
                (g@[7] / 256) as u8,
                (g@[7] % 256) as u8,
            )));
        }
    } else {
        let (st, ln) = longest_zero_run(g);
        if ln > 1 {
            push_joined_hex(s, g, 0, st);
            push_char(s, ':');
            push_char(s, ':');
            push_joined_hex(s, g, st + ln, g.len());
            proof {
                assert(s@ =~= old(s)@ + (joined_hex(g@.subrange(0, st as int)) + seq![':', ':'] + joined_hex(
                    g@.subrange(st + ln, g@.len() as int),
                )));
            }
        } else {
            push_joined_hex(s, g, 0, g.len());
            proof {
                assert(g@.subrange(0, g@.len() as int) =~= g@);
            }
        }
    }
}

fn hex_digit_of(d: u16) -> (c: char)
    requires
        d < 16,
    ensures
        c == hex_digit(d as nat),
{
    if d < 10 {
        digit_of(d as u64)
    } else if d == 10 {
        'a'
    } else if d == 11 {
        'b'
    } else if d == 12 {
        'c'
    } else if d == 13 {
        'd'
    } else if d == 14 {
        'e'
    } else {
        'f'
    }
}

fn render_hex(n: u16) -> (res: Vec<char>)
    ensures
        res@ == hex(n as nat),
    decreases n,
{
    if n < 16 {
        let mut v = Vec::new();
        v.push(hex_digit_of(n));
        proof {
            assert(v@ =~= seq![hex_digit(n as nat)]);
        }
        v
    } else {
        let mut v = render_hex(n / 16);
        v.push(hex_digit_of(n % 16));
        v
    }
}

pub(crate) fn push_hex(s: &mut String, n: u16)
    ensures
        final(s)@ == old(s)@ + hex(n as nat),
{
    let v = render_hex(n);
    push_chars(s, v.as_slice());
}

/// The value of a dotted-quad component, if `p` is one.
pub fn parse_octet(p: &[char]) -> (res: Option<u8>)
    ensures
        res matches Some(v) ==> valid_octet_text(p@) && v as nat == digits_value(p@),
        res is None ==> !valid_octet_text(p@),
{
    if p.len() < 1 || p.len() > 3 {
        return None;
    }
    if p.len() > 1 && p[0] == '0' {
        return None;
    }
    let mut value: u32 = 0;
    let mut i: usize = 0;
    while i < p.len()
        invariant
            i <= p.len() <= 3,
            all_digits(p@.subrange(0, i as int)),
            value as nat == digits_value(p@.subrange(0, i as int)),
            value < 1000,
        decreases p.len() - i,
    {
        let c = p[i];
        if !('0' <= c && c <= '9') {
            proof {
                assert(!is_digit(p@[i as int]));
            }
            return None;
        }
        proof {
            let t = p@.subrange(0, i + 1);
            assert(t.drop_last() =~= p@.subrange(0, i as int));
            assert(t.last() == c);
            assert(all_digits(t));
            if i == 0 {
                assert(p@.subrange(0, 0).len() == 0);
            }
        }
        let dv = (c as u32) - ('0' as u32);
        assert(value < 100) by {
            if i >= 3 {
            }
            lemma_digits_bound(p@.subrange(0, i as int));
        }
        value = value * 10 + dv;
        i = i + 1;
    }
    proof {
        assert(p@.subrange(0, p@.len() as int) =~= p@);
    }
    if value > 255 {
        return None;
    }
    Some(value as u8)
}

/// A digit string of length `n` denotes less than `10^n`.
proof fn lemma_digits_bound(s: Seq<char>)
    requires
        all_digits(s),
        s.len() <= 2,
    ensures
        digits_value(s) < 100,
        s.len() <= 1 ==> digits_value(s) < 10,
    decreases s.len(),
{
    if s.len() > 0 {
        assert(all_digits(s.drop_last())) by {
            assert forall|i: int| 0 <= i < s.drop_last().len() implies is_digit(
                #[trigger] s.drop_last()[i],
            ) by {
                assert(s.drop_last()[i] == s[i]);
            }
        }
        lemma_digits_bound(s.drop_last());
        assert(is_digit(s[s.len() - 1]));
    }
}

/// The IPv4 address written in dotted-quad notation in `s`, if it is one.
pub fn parse_ipv4_address(s: &[char]) -> (res: Option<IpAddress>)
    ensures
        res == parse_ipv4(s@),
{
    let parts = split_on(s, '.');
    if parts.len() != 4 {
        return None;
    }
    proof {
        assert(views(parts@)[0] == parts@[0]@);
        assert(views(parts@)[1] == parts@[1]@);
        assert(views(parts@)[2] == parts@[2]@);
        assert(views(parts@)[3] == parts@[3]@);
    }
    let a = parse_octet(parts[0].as_slice());
    let b = parse_octet(parts[1].as_slice());
    let c = parse_octet(parts[2].as_slice());
    let d = parse_octet(parts[3].as_slice());
    match (a, b, c, d) {
        (Some(a), Some(b), Some(c), Some(d)) => Some(IpAddress::V4(a, b, c, d)),
        _ => None,
    }
}

// ---------------------------------------------------------------------------
// IPv6 text
// ---------------------------------------------------------------------------

/// A hexadecimal digit, either case.
pub open spec fn is_hex_char(c: char) -> bool {
    ('0' <= c && c <= '9') || ('a' <= c && c <= 'f') || ('A' <= c && c <= 'F')
}

/// The value of a hexadecimal digit.
pub open spec fn hex_char_value(c: char) -> nat {
    if '0' <= c && c <= '9' {
        (c as nat - '0' as nat) as nat
    } else if 'a' <= c && c <= 'f' {
        (c as nat - 'a' as nat + 10) as nat
    } else {
        (c as nat - 'A' as nat + 10) as nat
    }
}

/// The number a string of hexadecimal digits denotes.
pub open spec fn hex_value(s: Seq<char>) -> nat
    decreases s.len(),
{
    if s.len() == 0 {
        0
    } else {
        hex_value(s.drop_last()) * 16 + hex_char_value(s.last())
    }
}

/// One IPv6 group: one to four hexadecimal digits.
pub open spec fn valid_group(p: Seq<char>) -> bool {
    1 <= p.len() <= 4 && forall|i: int| 0 <= i < p.len() ==> is_hex_char(#[trigger] p[i])
}

/// The two groups an embedded IPv4 address stands for.
pub open spec fn v4_groups(a: IpAddress) -> Seq<u16> {
    match a {
        IpAddress::V4(x, y, z, w) => seq![(x as nat * 256 + y as nat) as u16, (z as nat * 256 + w as nat) as u16],
        IpAddress::V6(..) => Seq::empty(),
    }
}

/// The groups that colon-separated pieces denote: each a hexadecimal group,
/// except that the last may be an embedded IPv4 address when `v4_last`.
pub open spec fn piece_groups(ps: Seq<Seq<char>>, v4_last: bool) -> Option<Seq<u16>>
    decreases ps.len(),
{
    if ps.len() == 0 {
        Some(Seq::empty())
    } else {
        match piece_groups(ps.drop_last(), false) {
            None => None,
            Some(init) => {
                let last = ps.last();
                if valid_group(last) {
                    Some(init.push(hex_value(last) as u16))
                } else if v4_last && parse_ipv4(last) is Some {
                    Some(init + v4_groups(parse_ipv4(last).unwrap()))
                } else {
                    None
                }
            },
        }
    }
}

/// The groups of an IPv6 address half around `::`: none for empty text.
pub open spec fn half_groups(t: Seq<char>, v4_last: bool) -> Option<Seq<u16>> {
    if t.len() == 0 {
        Some(Seq::empty())
    } else {
        piece_groups(split(t, ':'), v4_last)
    }
}

/// The address of eight groups.
pub open spec fn v6_of(g: Seq<u16>) -> IpAddress {
    IpAddress::V6(g[0], g[1], g[2], g[3], g[4], g[5], g[6], g[7])
}

/// The IPv6 address that `s` denotes, if any: eight colon-separated groups
/// (the last two possibly written as an IPv4 address), or groups before and
/// after a single `::` that stands for the zero groups between them (at
/// least one).
pub open spec fn parse_ipv6(s: Seq<char>) -> Option<IpAddress> {
    match find(s, seq![':', ':']) {
        None => match piece_groups(split(s, ':'), true) {
            Some(g) => if g.len() == 8 {
                Some(v6_of(g))
            } else {
                None
            },
            None => None,
        },
        Some(k) => {
            let head = half_groups(s.subrange(0, k), false);
            let tail = half_groups(s.subrange(k + 2, s.len() as int), true);
            match (head, tail) {
                (Some(h), Some(t)) => if h.len() + t.len() <= 7 {
                    Some(v6_of(h + Seq::new((8 - h.len() - t.len()) as nat, |i: int| 0u16) + t))
                } else {
                    None
                },
                _ => None,
            }
        },
    }
}

/// The address that `s` denotes, if any (`IpAddr::from_str`): IPv4 dotted
/// quad, else IPv6.
pub open spec fn parse_ip(s: Seq<char>) -> Option<IpAddress> {
    match parse_ipv4(s) {
        Some(a) => Some(a),
        None => parse_ipv6(s),
    }
}

fn hex_char_exec(c: char) -> (res: Option<u16>)
    ensures
        match res {
            Some(v) => is_hex_char(c) && v as nat == hex_char_value(c),
            None => !is_hex_char(c),
        },
{
    if '0' <= c && c <= '9' {
        Some((c as u32 - '0' as u32) as u16)
    } else if 'a' <= c && c <= 'f' {
        Some((c as u32 - 'a' as u32 + 10) as u16)
    } else if 'A' <= c && c <= 'F' {
        Some((c as u32 - 'A' as u32 + 10) as u16)
    } else {
        None
    }
}

proof fn lemma_hex_bound(s: Seq<char>)
    requires
        forall|i: int| 0 <= i < s.len() ==> is_hex_char(#[trigger] s[i]),
    ensures
        hex_value(s) < pow16(s.len()),
    decreases s.len(),
{
    if s.len() > 0 {
        lemma_hex_bound(s.drop_last());
        assert(is_hex_char(s[s.len() - 1]));
        assert(hex_char_value(s.last()) < 16);
        assert(pow16(s.len()) == pow16((s.len() - 1) as nat) * 16);
    }
}

/// Sixteen to the power `n`.
pub open spec fn pow16(n: nat) -> nat
    decreases n,
{
    if n == 0 {
        1
    } else {
        pow16((n - 1) as nat) * 16
    }
}

/// The value of one IPv6 group, if `p` is one.
pub fn parse_group(p: &[char]) -> (res: Option<u16>)
    ensures
        match res {
            Some(v) => valid_group(p@) && v as nat == hex_value(p@),
            None => !valid_group(p@),
        },
{
    if p.len() < 1 || p.len() > 4 {
        return None;
    }
    let mut value: u32 = 0;
    let mut i: usize = 0;
    while i < p.len()
        invariant
            i <= p.len() <= 4,
            forall|j: int| 0 <= j < i ==> is_hex_char(#[trigger] p@[j]),
            value as nat == hex_value(p@.subrange(0, i as int)),
            value as nat <= pow16(i as nat) - 1,
        decreases p.len() - i,
    {
        match hex_char_exec(p[i]) {
            None => {
                return None;
            },
            Some(d) => {
                proof {
                    let t = p@.subrange(0, i + 1);
                    assert(t.drop_last() =~= p@.subrange(0, i as int));
                    assert(pow16((i + 1) as nat) == pow16(i as nat) * 16);
                    assert(pow16(4) == 65536) by {
                        reveal_with_fuel(pow16, 5);
                    }
                    assert(pow16(i as nat) <= pow16(4)) by {
                        reveal_with_fuel(pow16, 5);
                    }
                }
                value = value * 16 + d as u32;
                i = i + 1;
            },
        }
    }
    proof {
        assert(p@.subrange(0, p@.len() as int) =~= p@);
        assert(pow16(p.len() as nat) <= 65536) by {
            reveal_with_fuel(pow16, 5);
        }
    }
    Some(value as u16)
}

/// The groups that colon-separated pieces denote.
fn parse_pieces(ps: &Vec<Vec<char>>, v4_last: bool) -> (res: Option<Vec<u16>>)
    ensures
        match res {
            Some(g) => piece_groups(views(ps@), v4_last) == Some(g@),
            None => piece_groups(views(ps@), v4_last) is None,
        },
{
    let mut g: Vec<u16> = Vec::new();
    let mut i: usize = 0;
    while i < ps.len()
        invariant
            i <= ps.len(),
            piece_groups(views(ps@).subrange(0, i as int), false) == Some(g@),
        decreases ps.len() - i,
    {
        let ghost pre = views(ps@).subrange(0, i + 1);
        proof {
            assert(pre.drop_last() =~= views(ps@).subrange(0, i as int));
            assert(pre.last() == ps@[i as int]@);
        }
        if i + 1 == ps.len() {
            match parse_group(ps[i].as_slice()) {
                Some(v) => {
                    g.push(v);
                },
                None => {
                    if !v4_last {
                        return None;
                    }
                    match parse_ipv4_address(ps[i].as_slice()) {
                        Some(IpAddress::V4(x, y, z, w)) => {
                            let ghost before = g@;
                            g.push(((x as u16) << 8) | (y as u16));
                            g.push(((z as u16) << 8) | (w as u16));
                            proof {
                                assert((((x as u16) << 8) | (y as u16)) == (x as nat * 256 + y as nat) as u16) by (bit_vector);
                                assert((((z as u16) << 8) | (w as u16)) == (z as nat * 256 + w as nat) as u16) by (bit_vector);
                                assert(g@ =~= before + v4_groups(IpAddress::V4(x, y, z, w)));
                                assert(views(ps@).subrange(0, ps@.len() as int) =~= views(ps@));
                            }
                            return Some(g);
                        },
                        _ => {
                            return None;
                        },
                    }
                },
            }
            proof {
                assert(views(ps@).subrange(0, ps@.len() as int) =~= views(ps@));
            }
            return Some(g);
        }
        match parse_group(ps[i].as_slice()) {
            Some(v) => {
                g.push(v);
            },
            None => {
                proof {
                    lemma_piece_groups_prefix_none(views(ps@), (i + 1) as nat, v4_last);
                }
                return None;
            },
        }
        i = i + 1;
    }
    proof {
        assert(views(ps@).subrange(0, ps@.len() as int) =~= views(ps@));
        if ps@.len() == 0 {
            assert(views(ps@) =~= Seq::<Seq<char>>::empty());
        }
    }
    Some(g)
}

/// A prefix that fails as a non-final part makes the whole list fail.
proof fn lemma_piece_groups_prefix_none(ps: Seq<Seq<char>>, n: nat, v4_last: bool)
    requires
        n < ps.len(),
        piece_groups(ps.subrange(0, n as int), false) is None,
    ensures
        piece_groups(ps, v4_last) is None,
    decreases ps.len() - n,
{
    if n + 1 < ps.len() {
        let q = ps.subrange(0, n + 1 as int);
        assert(q.drop_last() =~= ps.subrange(0, n as int));
        lemma_piece_groups_prefix_none(ps, (n + 1) as nat, v4_last);
    } else {
        assert(ps.drop_last() =~= ps.subrange(0, n as int));
    }
}

fn half(t: &[char], v4_last: bool) -> (res: Option<Vec<u16>>)
    ensures
        match res {
            Some(g) => half_groups(t@, v4_last) == Some(g@),
            None => half_groups(t@, v4_last) is None,
        },
{
    if t.len() == 0 {
        return Some(Vec::new());
    }
    let ps = split_on(t, ':');
    parse_pieces(&ps, v4_last)
}

fn v6_from(g: &Vec<u16>) -> (res: IpAddress)
    requires
        g.len() == 8,
    ensures
        res == v6_of(g@),
{
    IpAddress::V6(g[0], g[1], g[2], g[3], g[4], g[5], g[6], g[7])
}

/// The eight groups made of `h`, the zero groups that `::` stands for, and
/// `t`.
fn assemble(h: &Vec<u16>, t: &Vec<u16>) -> (g: Vec<u16>)
    requires
        h.len() + t.len() <= 7,
    ensures
        g@ == h@ + Seq::new((8 - h.len() - t.len()) as nat, |i: int| 0u16) + t@,
        g.len() == 8,
{
    let mut g: Vec<u16> = Vec::new();
    let mut i: usize = 0;
    while i < h.len()
        invariant
            i <= h.len(),
            g@ =~= h@.subrange(0, i as int),
        decreases h.len() - i,
    {
        g.push(h[i]);
        i = i + 1;
    }
    let zeros = 8 - h.len() - t.len();
    let mut z: usize = 0;
    proof {
        assert(h@.subrange(0, h@.len() as int) =~= h@);
    }
    while z < zeros
        invariant
            z <= zeros,
            g@ =~= h@ + Seq::new(z as nat, |i: int| 0u16),
        decreases zeros - z,
    {
        g.push(0);
        z = z + 1;
    }
    let ghost mid = g@;
    let mut j: usize = 0;
    while j < t.len()
        invariant
            j <= t.len(),
            g@ =~= mid + t@.subrange(0, j as int),
        decreases t.len() - j,
    {
        g.push(t[j]);
        j = j + 1;
    }
    proof {
        assert(t@.subrange(0, t@.len() as int) =~= t@);
    }
    g
}

/// The IPv6 address written in `s`, if it is one.
pub fn parse_ipv6_address(s: &[char]) -> (res: Option<IpAddress>)
    ensures
        res == parse_ipv6(s@),
{
    let dc: Vec<char> = vec![':', ':'];
    assert(dc@ =~= seq![':', ':']);
    match crate::text::find_seq(s, dc.as_slice()) {
        None => {
            let ps = split_on(s, ':');
            match parse_pieces(&ps, true) {
                Some(g) => {
                    if g.len() == 8 {
                        Some(v6_from(&g))
                    } else {
                        None
                    }
                },
                None => None,
            }
        },
        Some(k) => {
            proof {
                crate::text::lemma_find(s@, seq![':', ':']);
            }
            let n = s.len();
            assert(k + 2 <= n);
            let head = crate::text::slice_chars(s, 0, k);
            let tail = crate::text::slice_chars(s, k + 2, n);
            match (half(head.as_slice(), false), half(tail.as_slice(), true)) {
                (Some(h), Some(t)) => {
                    if h.len() <= 7 && t.len() <= 7 - h.len() {
                        let g = assemble(&h, &t);
                        Some(v6_from(&g))
                    } else {
                        None
                    }
                },
                _ => None,
            }
        },
    }
}

/// The address written in `s`, if it is one (`IpAddr::from_str`).
pub fn parse_ip_address(s: &[char]) -> (res: Option<IpAddress>)
    ensures
        res == parse_ip(s@),
{
    match parse_ipv4_address(s) {
        Some(a) => Some(a),
        None => parse_ipv6_address(s),
    }
}

} // verus!
