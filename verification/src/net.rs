//! Textual network addresses: dotted-decimal IPv4 and colon-separated MAC addresses.

use vstd::prelude::*;
use vstd::string::*;

use crate::text::{byte_len, split, split_char, strs_view, utf8_len};

verus! {

pub open spec fn is_digit_spec(c: char) -> bool {
    '0' <= c <= '9'
}

pub open spec fn is_hex_spec(c: char) -> bool {
    ||| '0' <= c <= '9'
    ||| 'a' <= c <= 'f'
    ||| 'A' <= c <= 'F'
}

/// The value of a string of decimal digits.
pub open spec fn dec_value(p: Seq<char>) -> nat
    decreases p.len(),
{
    if p.len() == 0 {
        0
    } else {
        dec_value(p.drop_last()) * 10 + ((p.last() as u32) - ('0' as u32)) as nat
    }
}

/// One dotted-decimal IPv4 octet as the standard library accepts it: one to three digits, no
/// leading zero unless the octet is `0`, value at most 255.
pub open spec fn octet_ok(p: Seq<char>) -> bool {
    &&& 1 <= p.len() <= 3
    &&& forall|i: int| 0 <= i < p.len() ==> is_digit_spec(#[trigger] p[i])
    &&& !(p.len() > 1 && p[0] == '0')
    &&& dec_value(p) <= 255
}

/// The address `s` denotes in dotted-decimal notation (`a.b.c.d`), as a 32-bit number with
/// `a` in the high byte; `None` when `s` is not such an address.
pub open spec fn parse_ipv4_spec(s: Seq<char>) -> Option<u32> {
    let parts = split_char(s, '.');
    if parts.len() == 4 && (forall|i: int| 0 <= i < 4 ==> octet_ok(#[trigger] parts[i])) {
        Some(
            (dec_value(parts[0]) * 16777216 + dec_value(parts[1]) * 65536 + dec_value(parts[2])
                * 256 + dec_value(parts[3])) as u32,
        )
    } else {
        None
    }
}

fn parse_octet(p: &str) -> (r: Option<u32>)
    ensures
        match r {
            Some(v) => octet_ok(p@) && v == dec_value(p@),
            None => !octet_ok(p@),
        },
{
    let n = p.unicode_len();
    if n < 1 || n > 3 {
        return None;
    }
    let mut v: u32 = 0;
    let mut i: usize = 0;
    while i < n
        invariant
            n == p@.len(),
            1 <= n <= 3,
            i <= n,
            forall|j: int| 0 <= j < i ==> is_digit_spec(#[trigger] p@[j]),
            v == dec_value(p@.take(i as int)),
            i == 0 ==> v == 0,
            i == 1 ==> v < 10,
            i == 2 ==> v < 100,
            i == 3 ==> v < 1000,
        decreases n - i,
    {
        let c = p.get_char(i);
        if !('0' <= c && c <= '9') {
            return None;
        }
        assert(p@.take(i + 1).drop_last() =~= p@.take(i as int));
        v = v * 10 + ((c as u32) - ('0' as u32));
        i += 1;
    }
    assert(p@.take(n as int) =~= p@);
    if n > 1 && p.get_char(0) == '0' {
        return None;
    }
    if v > 255 {
        return None;
    }
    Some(v)
}

/// Parses dotted-decimal IPv4 notation, as `str::parse::<Ipv4Addr>` does, into the address as a
/// 32-bit number.
pub fn parse_ipv4(s: &str) -> (r: Option<u32>)
    ensures
        r == parse_ipv4_spec(s@),
{
    let parts = split(s, '.');
    let ghost ps = split_char(s@, '.');
    if parts.len() != 4 {
        assert(strs_view(parts@).len() == parts.len());
        return None;
    }
    assert(forall|i: int| 0 <= i < 4 ==> #[trigger] ps[i] == parts@[i]@);
    let a = parse_octet(parts[0].as_str());
    let b = parse_octet(parts[1].as_str());
    let c = parse_octet(parts[2].as_str());
    let d = parse_octet(parts[3].as_str());
    match (a, b, c, d) {
        (Some(a), Some(b), Some(c), Some(d)) => {
            assert forall|i: int| 0 <= i < 4 implies octet_ok(#[trigger] ps[i]) by {
                if i == 0 {
                } else if i == 1 {
                } else if i == 2 {
                } else {
                }
            }
            Some(a * 16777216 + b * 65536 + c * 256 + d)
        },
        _ => {
            assert(!octet_ok(ps[0]) || !octet_ok(ps[1]) || !octet_ok(ps[2]) || !octet_ok(ps[3]));
            None
        },
    }
}

/// The first octet of an address.
pub open spec fn first_octet(ip: u32) -> u32 {
    ip / 16777216
}

/// `Ipv4Addr::is_unspecified`, `is_loopback` (127.0.0.0/8) or `is_multicast` (224.0.0.0/4).
pub open spec fn is_reserved_ipv4(ip: u32) -> bool {
    ip == 0 || first_octet(ip) == 127 || (224 <= first_octet(ip) <= 239)
}

pub fn is_reserved(ip: u32) -> (r: bool)
    ensures
        r == is_reserved_ipv4(ip),
{
    let first = ip / 16777216;
    ip == 0 || first == 127 || (224 <= first && first <= 239)
}

/// A prefix netmask: `len` leading one bits followed by zero bits, for `len` from 1 to 32.
pub open spec fn prefix_mask(len: u32) -> u32 {
    if len >= 32 {
        0xffff_ffffu32
    } else {
        !(0xffff_ffffu32 >> len)
    }
}

/// A netmask made of one contiguous run of leading one bits, and not zero.
pub open spec fn is_contiguous_mask(raw: u32) -> bool {
    exists|len: u32| 1 <= len <= 32 && raw == prefix_mask(len)
}

/// Whether `raw` is a contiguous non-zero netmask.
pub fn contiguous_mask(raw: u32) -> (r: bool)
    ensures
        r == is_contiguous_mask(raw),
{
    let mut len: u32 = 1;
    while len <= 32
        invariant
            1 <= len <= 33,
            forall|k: u32| 1 <= k < len ==> raw != #[trigger] prefix_mask(k),
        decreases 33 - len,
    {
        let m = if len >= 32 {
            0xffff_ffffu32
        } else {
            !(0xffff_ffffu32 >> len)
        };
        if raw == m {
            assert(raw == prefix_mask(len));
            return true;
        }
        len += 1;
    }
    false
}

/// An ASCII hexadecimal digit.
pub fn is_hex(c: char) -> (r: bool)
    ensures
        r == is_hex_spec(c),
{
    ('0' <= c && c <= '9') || ('a' <= c && c <= 'f') || ('A' <= c && c <= 'F')
}

/// One MAC octet: two bytes, both ASCII hexadecimal digits.
pub open spec fn mac_octet_ok(p: Seq<char>) -> bool {
    byte_len(p) == 2 && forall|i: int| 0 <= i < p.len() ==> is_hex_spec(#[trigger] p[i])
}

/// The first piece of `parts` that is not a valid MAC octet.
pub open spec fn first_bad_octet(parts: Seq<Seq<char>>) -> Option<Seq<char>>
    decreases parts.len(),
{
    if parts.len() == 0 {
        None
    } else if !mac_octet_ok(parts[0]) {
        Some(parts[0])
    } else {
        first_bad_octet(parts.drop_first())
    }
}

fn mac_octet_valid(p: &str) -> (r: bool)
    ensures
        r == mac_octet_ok(p@),
{
    if utf8_len(p) != 2 {
        return false;
    }
    let n = p.unicode_len();
    let mut i: usize = 0;
    while i < n
        invariant
            n == p@.len(),
            i <= n,
            forall|j: int| 0 <= j < i ==> is_hex_spec(#[trigger] p@[j]),
        decreases n - i,
    {
        if !is_hex(p.get_char(i)) {
            return false;
        }
        i += 1;
    }
    true
}

/// The first piece of `parts` that is not a MAC octet.
pub fn find_bad_octet(parts: &Vec<String>) -> (r: Option<usize>)
    ensures
        match r {
            Some(i) => i < parts.len() && first_bad_octet(strs_view(parts@)) == Some(parts@[i as int]@),
            None => first_bad_octet(strs_view(parts@)) is None,
        },
{
    let ghost ps = strs_view(parts@);
    let mut i: usize = 0;
    assert(ps.skip(0) =~= ps);
    while i < parts.len()
        invariant
            ps == strs_view(parts@),
            i <= parts.len(),
            first_bad_octet(ps) == first_bad_octet(ps.skip(i as int)),
        decreases parts.len() - i,
    {
        assert(ps.skip(i as int)[0] == parts@[i as int]@);
        assert(ps.skip(i as int).drop_first() =~= ps.skip(i + 1));
        if !mac_octet_valid(parts[i].as_str()) {
            return Some(i);
        }
        i += 1;
    }
    None
}

pub open spec fn ascii_lower(c: char) -> char {
    if 'A' <= c <= 'Z' {
        ((c as u32) + 32) as char
    } else {
        c
    }
}

/// The lower-case letter of an upper-case ASCII letter, as a one-letter text.
fn lower_letter(c: char) -> (r: &'static str)
    requires
        'A' <= c <= 'Z',
    ensures
        r@ == seq![ascii_lower(c)],
{
    match c {
        'A' => {
            proof {
                reveal_strlit("a");
            }
            "a"
        },
        'B' => {
            proof {
                reveal_strlit("b");
            }
            "b"
        },
        'C' => {
            proof {
                reveal_strlit("c");
            }
            "c"
        },
        'D' => {
            proof {
                reveal_strlit("d");
            }
            "d"
        },
        'E' => {
            proof {
                reveal_strlit("e");
            }
            "e"
        },
        'F' => {
            proof {
                reveal_strlit("f");
            }
            "f"
        },
        'G' => {
            proof {
                reveal_strlit("g");
            }
            "g"
        },
        'H' => {
            proof {
                reveal_strlit("h");
            }
            "h"
        },
        'I' => {
            proof {
                reveal_strlit("i");
            }
            "i"
        },
        'J' => {
            proof {
                reveal_strlit("j");
            }
            "j"
        },
        'K' => {
            proof {
                reveal_strlit("k");
            }
            "k"
        },
        'L' => {
            proof {
                reveal_strlit("l");
            }
            "l"
        },
        'M' => {
            proof {
                reveal_strlit("m");
            }
            "m"
        },
        'N' => {
            proof {
                reveal_strlit("n");
            }
            "n"
        },
        'O' => {
            proof {
                reveal_strlit("o");
            }
            "o"
        },
        'P' => {
            proof {
                reveal_strlit("p");
            }
            "p"
        },
        'Q' => {
            proof {
                reveal_strlit("q");
            }
            "q"
        },
        'R' => {
            proof {
                reveal_strlit("r");
            }
            "r"
        },
        'S' => {
            proof {
                reveal_strlit("s");
            }
            "s"
        },
        'T' => {
            proof {
                reveal_strlit("t");
            }
            "t"
        },
        'U' => {
            proof {
                reveal_strlit("u");
            }
            "u"
        },
        'V' => {
            proof {
                reveal_strlit("v");
            }
            "v"
        },
        'W' => {
            proof {
                reveal_strlit("w");
            }
            "w"
        },
        'X' => {
            proof {
                reveal_strlit("x");
            }
            "x"
        },
        'Y' => {
            proof {
                reveal_strlit("y");
            }
            "y"
        },
        'Z' => {
            proof {
                reveal_strlit("z");
            }
            "z"
        },
        _ => {
            proof {
                reveal_strlit("z");
            }
            "z"
        },
    }
}

/// The text with ASCII letters `A` to `Z` turned into `a` to `z`; every other character is kept.
pub fn ascii_lowercase(s: &str) -> (r: String)
    ensures
        r@ == s@.map_values(|c: char| ascii_lower(c)),
{
    let n = s.unicode_len();
    let mut r = String::new();
    let mut i: usize = 0;
    while i < n
        invariant
            n == s@.len(),
            i <= n,
            r@ == s@.subrange(0, i as int).map_values(|c: char| ascii_lower(c)),
        decreases n - i,
    {
        let c = s.get_char(i);
        let piece = if 'A' <= c && c <= 'Z' {
            lower_letter(c)
        } else {
            s.substring_char(i, i + 1)
        };
        let ghost before = r@;
        r.append(piece);
        proof {
            assert(piece@ == seq![ascii_lower(c)]);
            assert(s@.subrange(0, i + 1) =~= s@.subrange(0, i as int).push(c));
            assert(r@ =~= s@.subrange(0, i + 1).map_values(|c: char| ascii_lower(c)));
        }
        i += 1;
    }
    proof {
        assert(s@.subrange(0, n as int) =~= s@);
    }
    r
}

/// `str::eq_ignore_ascii_case`: equal once ASCII letters are lowered.
pub open spec fn eq_ignore_case_spec(s: Seq<char>, t: Seq<char>) -> bool {
    s.len() == t.len() && forall|i: int|
        0 <= i < s.len() ==> ascii_lower(#[trigger] s[i]) == ascii_lower(t[i])
}

fn lower_char(c: char) -> (r: char)
    ensures
        r == ascii_lower(c),
{
    if 'A' <= c && c <= 'Z' {
        ((c as u8) + 32) as char
    } else {
        c
    }
}

pub fn eq_ignore_ascii_case(s: &str, t: &str) -> (r: bool)
    ensures
        r == eq_ignore_case_spec(s@, t@),
{
    let n = s.unicode_len();
    if n != t.unicode_len() {
        return false;
    }
    let mut i: usize = 0;
    while i < n
        invariant
            n == s@.len(),
            n == t@.len(),
            i <= n,
            forall|j: int| 0 <= j < i ==> ascii_lower(#[trigger] s@[j]) == ascii_lower(t@[j]),
        decreases n - i,
    {
        if lower_char(s.get_char(i)) != lower_char(t.get_char(i)) {
            return false;
        }
        i += 1;
    }
    true
}

} // verus!

verus! {

/// The number of consecutive hexadecimal digits of `s` from `pos`.
pub open spec fn hex_run(s: Seq<char>, pos: int) -> nat
    decreases s.len() - pos,
{
    if 0 <= pos < s.len() && is_hex_spec(s[pos]) {
        1 + hex_run(s, pos + 1)
    } else {
        0
    }
}

/// The number of consecutive decimal digits of `s` from `pos`.
pub open spec fn dec_run(s: Seq<char>, pos: int) -> nat
    decreases s.len() - pos,
{
    if 0 <= pos < s.len() && is_digit_spec(s[pos]) {
        1 + dec_run(s, pos + 1)
    } else {
        0
    }
}

/// Reads one IPv4 octet at `pos`; the position after it.
pub open spec fn read_octet(s: Seq<char>, pos: int) -> Option<int> {
    let n = dec_run(s, pos);
    if 1 <= n <= 3 && !(n > 1 && s[pos] == '0') && dec_value(s.subrange(pos, pos + n)) <= 255 {
        Some(pos + n)
    } else {
        None
    }
}

/// Reads `.` and an octet at `pos`.
pub open spec fn read_dot_octet(s: Seq<char>, pos: Option<int>) -> Option<int> {
    match pos {
        Some(p) => if 0 <= p < s.len() && s[p] == '.' {
            read_octet(s, p + 1)
        } else {
            None
        },
        None => None,
    }
}

/// Reads a dotted-decimal IPv4 address at `pos`.
pub open spec fn read_ipv4_at(s: Seq<char>, pos: int) -> Option<int> {
    read_dot_octet(s, read_dot_octet(s, read_dot_octet(s, read_octet(s, pos))))
}

/// Reads one IPv6 group (one to four hexadecimal digits) at `pos`.
pub open spec fn read_h16(s: Seq<char>, pos: int) -> Option<int> {
    let n = hex_run(s, pos);
    if 1 <= n <= 4 {
        Some(pos + n)
    } else {
        None
    }
}

/// Where the next group starts: after a `:` unless it is the first group.
pub open spec fn after_sep(s: Seq<char>, pos: int, i: int) -> Option<int> {
    if i == 0 {
        Some(pos)
    } else if 0 <= pos < s.len() && s[pos] == ':' {
        Some(pos + 1)
    } else {
        None
    }
}

/// Reads colon-separated IPv6 groups from `pos` as group `i` of at most `limit`, where the
/// last two groups may be an embedded IPv4 address: the number of groups read, whether they
/// ended in an IPv4 address, and the position after them.
pub open spec fn read_groups(s: Seq<char>, pos: int, i: int, limit: int) -> (int, bool, int)
    decreases limit - i,
{
    if i >= limit {
        (i, false, pos)
    } else {
        let start = after_sep(s, pos, i);
        if start is Some && i < limit - 1 && read_ipv4_at(s, start->0) is Some {
            (i + 2, true, read_ipv4_at(s, start->0)->0)
        } else if start is Some && read_h16(s, start->0) is Some {
            read_groups(s, read_h16(s, start->0)->0, i + 1, limit)
        } else {
            (i, false, pos)
        }
    }
}

/// IPv6 text as `str::parse::<Ipv6Addr>` accepts it: eight groups, or groups on either side of
/// one `::`, with an optional embedded IPv4 address at the end.
pub open spec fn is_ipv6_spec(s: Seq<char>) -> bool {
    let (h, h4, p) = read_groups(s, 0, 0, 8);
    if h == 8 {
        p == s.len()
    } else if h4 {
        false
    } else if p + 1 < s.len() && s[p] == ':' && s[p + 1] == ':' {
        read_groups(s, p + 2, 0, 7 - h).2 == s.len()
    } else {
        false
    }
}

/// Text that `str::parse::<IpAddr>` accepts: an IPv4 or an IPv6 address.
pub open spec fn is_ip_addr_spec(s: Seq<char>) -> bool {
    parse_ipv4_spec(s) is Some || is_ipv6_spec(s)
}

fn hex_run_exec(s: &str, n: usize, pos: usize) -> (r: usize)
    requires
        n == s@.len(),
        pos <= n,
    ensures
        r == hex_run(s@, pos as int),
        pos + r <= n,
    decreases n - pos,
{
    if pos < n && is_hex(s.get_char(pos)) {
        1 + hex_run_exec(s, n, pos + 1)
    } else {
        0
    }
}

fn dec_run_exec(s: &str, n: usize, pos: usize) -> (r: usize)
    requires
        n == s@.len(),
        pos <= n,
    ensures
        r == dec_run(s@, pos as int),
        pos + r <= n,
    decreases n - pos,
{
    if pos < n {
        let c = s.get_char(pos);
        if '0' <= c && c <= '9' {
            return 1 + dec_run_exec(s, n, pos + 1);
        }
    }
    0
}

proof fn lemma_dec_run_digits(s: Seq<char>, pos: int)
    requires
        0 <= pos <= s.len(),
    ensures
        forall|j: int| pos <= j < pos + dec_run(s, pos) ==> is_digit_spec(#[trigger] s[j]),
    decreases s.len() - pos,
{
    if pos < s.len() && is_digit_spec(s[pos]) {
        lemma_dec_run_digits(s, pos + 1);
    }
}

fn read_octet_exec(s: &str, n: usize, pos: usize) -> (r: Option<usize>)
    requires
        n == s@.len(),
        pos <= n,
    ensures
        match r {
            Some(p) => read_octet(s@, pos as int) == Some(p as int) && p <= n,
            None => read_octet(s@, pos as int) is None,
        },
{
    let len = dec_run_exec(s, n, pos);
    if len < 1 || len > 3 {
        return None;
    }
    if len > 1 && s.get_char(pos) == '0' {
        return None;
    }
    proof {
        lemma_dec_run_digits(s@, pos as int);
    }
    let piece = s.substring_char(pos, pos + len);
    assert forall|j: int| 0 <= j < piece@.len() implies is_digit_spec(#[trigger] piece@[j]) by {
        assert(piece@[j] == s@[pos + j]);
    }
    match parse_octet(piece) {
        Some(_) => Some(pos + len),
        None => None,
    }
}

fn read_dot_octet_exec(s: &str, n: usize, pos: Option<usize>) -> (r: Option<usize>)
    requires
        n == s@.len(),
        pos matches Some(p) ==> p <= n,
    ensures
        match r {
            Some(p) => read_dot_octet(
                s@,
                match pos {
                    Some(q) => Some(q as int),
                    None => None,
                },
            ) == Some(p as int) && p <= n,
            None => read_dot_octet(
                s@,
                match pos {
                    Some(q) => Some(q as int),
                    None => None,
                },
            ) is None,
        },
{
    match pos {
        Some(p) => {
            if p < n && s.get_char(p) == '.' {
                read_octet_exec(s, n, p + 1)
            } else {
                None
            }
        },
        None => None,
    }
}

fn read_ipv4_exec(s: &str, n: usize, pos: usize) -> (r: Option<usize>)
    requires
        n == s@.len(),
        pos <= n,
    ensures
        match r {
            Some(p) => read_ipv4_at(s@, pos as int) == Some(p as int) && p <= n,
            None => read_ipv4_at(s@, pos as int) is None,
        },
{
    let a = read_octet_exec(s, n, pos);
    let b = read_dot_octet_exec(s, n, a);
    let c = read_dot_octet_exec(s, n, b);
    read_dot_octet_exec(s, n, c)
}

fn read_h16_exec(s: &str, n: usize, pos: usize) -> (r: Option<usize>)
    requires
        n == s@.len(),
        pos <= n,
    ensures
        match r {
            Some(p) => read_h16(s@, pos as int) == Some(p as int) && p <= n,
            None => read_h16(s@, pos as int) is None,
        },
{
    let len = hex_run_exec(s, n, pos);
    if 1 <= len && len <= 4 {
        Some(pos + len)
    } else {
        None
    }
}

fn read_groups_exec(s: &str, n: usize, pos: usize, i: usize, limit: usize) -> (r: (usize, bool, usize))
    requires
        n == s@.len(),
        pos <= n,
        i <= limit <= 8,
    ensures
        read_groups(s@, pos as int, i as int, limit as int) == (r.0 as int, r.1, r.2 as int),
        r.2 <= n,
        r.0 <= limit,
    decreases limit - i,
{
    if i >= limit {
        return (i, false, pos);
    }
    let start = if i == 0 {
        Some(pos)
    } else if pos < n && s.get_char(pos) == ':' {
        Some(pos + 1)
    } else {
        None
    };
    if let Some(st) = start {
        if i + 1 < limit {
            if let Some(p) = read_ipv4_exec(s, n, st) {
                return (i + 2, true, p);
            }
        }
        if let Some(p) = read_h16_exec(s, n, st) {
            return read_groups_exec(s, n, p, i + 1, limit);
        }
    }
    (i, false, pos)
}

/// Whether `s` is an IPv6 address.
pub fn is_ipv6(s: &str) -> (r: bool)
    ensures
        r == is_ipv6_spec(s@),
{
    let n = s.unicode_len();
    let (h, h4, p) = read_groups_exec(s, n, 0, 0, 8);
    if h == 8 {
        return p == n;
    }
    if h4 {
        return false;
    }
    if p < n && n - p >= 2 && s.get_char(p) == ':' && s.get_char(p + 1) == ':' {
        let (_, _, p2) = read_groups_exec(s, n, p + 2, 0, 7 - h);
        p2 == n
    } else {
        false
    }
}

/// Whether `s` is an IPv4 or IPv6 address.
pub fn is_ip_addr(s: &str) -> (r: bool)
    ensures
        r == is_ip_addr_spec(s@),
{
    parse_ipv4(s).is_some() || is_ipv6(s)
}

} // verus!
