//! IP address literals: the data model and the parser.
//!
//! A host argument that is a valid IPv4 or IPv6 literal is used directly and
//! never sent to the name resolver, so the parser's exactness matters: its
//! contract says precisely which byte strings are literals and which value
//! each one denotes.  The grammar is stated by spec functions that read the
//! bytes from left to right, and the executable parser is proved to return
//! exactly what they say.
//!
//! The IPv4 grammar is four decimal octets separated by dots, each one to
//! three digits, no leading zeros, value at most 255.  The IPv6 grammar is
//! eight colon-separated groups of one to four hex digits, with at most one
//! `::` standing for a run of zero groups, and optionally an embedded IPv4
//! literal as the last two groups.

use vstd::prelude::*;

verus! {

/// An IPv4 address as its four octets, in network order.
#[derive(Clone, Copy, PartialEq, Eq, Structural, Debug)]
pub struct Ipv4Address {
    pub o0: u8,
    pub o1: u8,
    pub o2: u8,
    pub o3: u8,
}

/// An IPv6 address as its eight 16-bit groups, in network order.
#[derive(Clone, Copy, PartialEq, Eq, Structural, Debug)]
pub struct Ipv6Address {
    pub g0: u16,
    pub g1: u16,
    pub g2: u16,
    pub g3: u16,
    pub g4: u16,
    pub g5: u16,
    pub g6: u16,
    pub g7: u16,
}

/// Either kind of address.
#[derive(Clone, Copy, PartialEq, Eq, Structural, Debug)]
pub enum IpAddress {
    V4(Ipv4Address),
    V6(Ipv6Address),
}

/// The ASCII dot.
pub const DOT: u8 = 46;

/// The ASCII colon.
pub const COLON: u8 = 58;

/// True for the ASCII bytes `'0'` through `'9'`.
pub open spec fn is_digit(b: u8) -> bool {
    48 <= b <= 57
}

/// The numeric value of a decimal digit byte.
pub open spec fn digit_value(b: u8) -> int {
    b - 48
}

/// True for the ASCII bytes of a hexadecimal digit, either case.
pub open spec fn is_hex_digit(b: u8) -> bool {
    is_digit(b) || (97 <= b <= 102) || (65 <= b <= 70)
}

/// The numeric value of a hexadecimal digit byte.
pub open spec fn hex_digit_value(b: u8) -> int {
    if is_digit(b) {
        b - 48
    } else if 97 <= b <= 102 {
        b - 97 + 10
    } else {
        b - 65 + 10
    }
}

/// The end of the maximal run of decimal digits starting at `i`, capped at `end`.
pub open spec fn digit_run_end(s: Seq<u8>, i: int, end: int) -> int
    decreases end - i when i <= end <= s.len()
{
    if i < end && is_digit(s[i]) {
        digit_run_end(s, i + 1, end)
    } else {
        i
    }
}

/// The end of the maximal run of hex digits starting at `i`, capped at `end`.
pub open spec fn hex_run_end(s: Seq<u8>, i: int, end: int) -> int
    decreases end - i when i <= end <= s.len()
{
    if i < end && is_hex_digit(s[i]) {
        hex_run_end(s, i + 1, end)
    } else {
        i
    }
}

/// The value of the decimal digits `s[i..j]`.
pub open spec fn dec_value(s: Seq<u8>, i: int, j: int) -> int
    decreases j - i when i <= j
{
    if j <= i {
        0
    } else {
        dec_value(s, i, j - 1) * 10 + digit_value(s[j - 1])
    }
}

/// The value of the hex digits `s[i..j]`.
pub open spec fn hex_value(s: Seq<u8>, i: int, j: int) -> int
    decreases j - i when i <= j
{
    if j <= i {
        0
    } else {
        hex_value(s, i, j - 1) * 16 + hex_digit_value(s[j - 1])
    }
}

/// The decimal octet starting at `i`, with the position just after it: one to
/// three digits, no leading zero, value at most 255.
pub open spec fn spec_octet(s: Seq<u8>, i: int) -> Option<(u8, int)> {
    let e = digit_run_end(s, i, s.len() as int);
    if i < e && e - i <= 3 && (s[i] == 48 ==> e == i + 1) && dec_value(s, i, e) <= 255 {
        Some((dec_value(s, i, e) as u8, e))
    } else {
        None
    }
}

/// The IPv4 literal occupying `s[i..]` exactly: four octets separated by dots.
pub open spec fn spec_parse_ipv4_from(s: Seq<u8>, i: int) -> Option<Ipv4Address> {
    match spec_octet(s, i) {
        Some((o0, e0)) => if e0 < s.len() && s[e0] == DOT {
            match spec_octet(s, e0 + 1) {
                Some((o1, e1)) => if e1 < s.len() && s[e1] == DOT {
                    match spec_octet(s, e1 + 1) {
                        Some((o2, e2)) => if e2 < s.len() && s[e2] == DOT {
                            match spec_octet(s, e2 + 1) {
                                Some((o3, e3)) => if e3 == s.len() {
                                    Some(Ipv4Address { o0, o1, o2, o3 })
                                } else {
                                    None
                                },
                                None => None,
                            }
                        } else {
                            None
                        },
                        None => None,
                    }
                } else {
                    None
                },
                None => None,
            }
        } else {
            None
        },
        None => None,
    }
}

/// The IPv4 literal that `s` is, if it is one.
pub open spec fn spec_parse_ipv4(s: Seq<u8>) -> Option<Ipv4Address> {
    spec_parse_ipv4_from(s, 0)
}

/// The colon-separated group list occupying `s[i..end]` exactly.  Each group
/// is one to four hex digits; when `v4_tail` is set (and `end` is the end of
/// the whole literal) the list may close with an embedded IPv4 literal, which
/// contributes two groups.
pub open spec fn spec_groups(s: Seq<u8>, i: int, end: int, v4_tail: bool) -> Option<Seq<u16>>
    decreases end - i when 0 <= i <= end <= s.len() via spec_groups_decreases
{
    let e = hex_run_end(s, i, end);
    if e == i {
        None
    } else if e - i > 4 {
        None
    } else if e == end {
        Some(seq![hex_value(s, i, e) as u16])
    } else if s[e] == COLON {
        match spec_groups(s, e + 1, end, v4_tail) {
            Some(rest) => Some(seq![hex_value(s, i, e) as u16] + rest),
            None => None,
        }
    } else if v4_tail && s[e] == DOT {
        match spec_parse_ipv4_from(s, i) {
            Some(q) => Some(
                seq![
                    (q.o0 as u16 * 256 + q.o1 as u16) as u16,
                    (q.o2 as u16 * 256 + q.o3 as u16) as u16,
                ],
            ),
            None => None,
        }
    } else {
        None
    }
}

/// A maximal run never leaves `[i, end]`.
proof fn lemma_hex_run_end_bounds(s: Seq<u8>, i: int, end: int)
    requires
        0 <= i <= end <= s.len(),
    ensures
        i <= hex_run_end(s, i, end) <= end,
    decreases end - i,
{
    if i < end && is_hex_digit(s[i]) {
        lemma_hex_run_end_bounds(s, i + 1, end);
    }
}

#[via_fn]
proof fn spec_groups_decreases(s: Seq<u8>, i: int, end: int, v4_tail: bool) {
    lemma_hex_run_end_bounds(s, i, end);
}

/// The position of the first `::` at or after `i`, if any.
pub open spec fn spec_find_dcolon(s: Seq<u8>, i: int) -> Option<int>
    decreases s.len() - i when 0 <= i
{
    if i + 1 >= s.len() {
        None
    } else if s[i] == COLON && s[i + 1] == COLON {
        Some(i)
    } else {
        spec_find_dcolon(s, i + 1)
    }
}

/// A run of zero groups.
pub open spec fn zero_groups(n: int) -> Seq<u16> {
    Seq::new(n as nat, |k: int| 0u16)
}

/// The address whose eight groups are `g` (meaningful when `g.len() == 8`).
pub open spec fn groups_to_address(g: Seq<u16>) -> Ipv6Address {
    Ipv6Address {
        g0: g[0],
        g1: g[1],
        g2: g[2],
        g3: g[3],
        g4: g[4],
        g5: g[5],
        g6: g[6],
        g7: g[7],
    }
}

/// The IPv6 literal that `s` is, if it is one.  Without `::` the literal is
/// exactly eight groups; with one `::`, the groups before and after it total
/// at most seven and the gap stands for the missing zero groups.
pub open spec fn spec_parse_ipv6(s: Seq<u8>) -> Option<Ipv6Address> {
    match spec_find_dcolon(s, 0) {
        None => match spec_groups(s, 0, s.len() as int, true) {
            Some(g) => if g.len() == 8 {
                Some(groups_to_address(g))
            } else {
                None
            },
            None => None,
        },
        Some(d) => {
            let left = if d == 0 {
                Some(Seq::<u16>::empty())
            } else {
                spec_groups(s, 0, d, false)
            };
            let right = if d + 2 == s.len() {
                Some(Seq::<u16>::empty())
            } else {
                spec_groups(s, d + 2, s.len() as int, true)
            };
            match (left, right) {
                (Some(lg), Some(rg)) => if lg.len() + rg.len() <= 7 {
                    Some(groups_to_address(lg + zero_groups(8 - lg.len() - rg.len()) + rg))
                } else {
                    None
                },
                _ => None,
            }
        },
    }
}

/// The IP literal that `s` is, if it is one of either family.
pub open spec fn spec_parse_ip(s: Seq<u8>) -> Option<IpAddress> {
    match spec_parse_ipv4(s) {
        Some(a) => Some(IpAddress::V4(a)),
        None => match spec_parse_ipv6(s) {
            Some(a) => Some(IpAddress::V6(a)),
            None => None,
        },
    }
}

/// Scans the maximal run of decimal digits starting at `i`.
fn digit_run(s: &[u8], i: usize) -> (e: usize)
    requires
        i <= s@.len(),
    ensures
        e == digit_run_end(s@, i as int, s@.len() as int),
        i <= e <= s@.len(),
{
    let mut j = i;
    while j < s.len() && s[j] >= 48 && s[j] <= 57
        invariant
            i <= j <= s@.len(),
            digit_run_end(s@, i as int, s@.len() as int) == digit_run_end(
                s@,
                j as int,
                s@.len() as int,
            ),
        decreases s@.len() - j,
    {
        j += 1;
    }
    j
}

/// Scans the maximal run of hex digits starting at `i`, capped at `end`.
fn hex_run(s: &[u8], i: usize, end: usize) -> (e: usize)
    requires
        i <= end <= s@.len(),
    ensures
        e == hex_run_end(s@, i as int, end as int),
        i <= e <= end,
{
    let mut j = i;
    while j < end && ((s[j] >= 48 && s[j] <= 57) || (s[j] >= 97 && s[j] <= 102) || (s[j] >= 65
        && s[j] <= 70))
        invariant
            i <= j <= end <= s@.len(),
            hex_run_end(s@, i as int, end as int) == hex_run_end(s@, j as int, end as int),
        decreases end - j,
    {
        j += 1;
    }
    j
}

/// Parses the decimal octet starting at `i`, returning its value and the
/// position just after it.
fn parse_octet(s: &[u8], i: usize) -> (r: Option<(u8, usize)>)
    requires
        i <= s@.len(),
    ensures
        match r {
            Some(p) => spec_octet(s@, i as int) == Some((p.0, p.1 as int)) && i < p.1 <= s@.len(),
            None => spec_octet(s@, i as int) is None,
        },
{
    let e = digit_run(s, i);
    if e == i || e - i > 3 {
        return None;
    }
    if s[i] == 48 && e != i + 1 {
        return None;
    }
    let mut acc: u32 = 0;
    let mut k = i;
    while k < e
        invariant
            i <= k <= e <= s@.len(),
            e - i <= 3,
            e == digit_run_end(s@, i as int, s@.len() as int),
            acc == dec_value(s@, i as int, k as int),
            k - i == 0 ==> acc == 0,
            k - i <= 1 ==> acc <= 9,
            k - i <= 2 ==> acc <= 99,
            acc <= 999,
        decreases e - k,
    {
        proof {
            lemma_run_is_digits(s@, i as int, k as int, s@.len() as int);
        }
        acc = acc * 10 + (s[k] - 48) as u32;
        k += 1;
    }
    if acc > 255 {
        return None;
    }
    Some((acc as u8, e))
}

/// Every position inside a maximal digit run holds a digit.
proof fn lemma_run_is_digits(s: Seq<u8>, i: int, k: int, end: int)
    requires
        0 <= i <= k <= end <= s.len(),
        k < digit_run_end(s, i, end),
    ensures
        is_digit(s[k]),
    decreases k - i,
{
    if i < k {
        if is_digit(s[i]) {
            lemma_run_is_digits(s, i + 1, k, end);
        }
    }
}

/// Every position inside a maximal hex run holds a hex digit.
proof fn lemma_hex_run_is_digits(s: Seq<u8>, i: int, k: int, end: int)
    requires
        0 <= i <= k <= end <= s.len(),
        k < hex_run_end(s, i, end),
    ensures
        is_hex_digit(s[k]),
    decreases k - i,
{
    if i < k {
        if is_hex_digit(s[i]) {
            lemma_hex_run_is_digits(s, i + 1, k, end);
        }
    }
}

/// Parses the IPv4 literal occupying `s[i..]` exactly.
fn parse_ipv4_from(s: &[u8], i: usize) -> (r: Option<Ipv4Address>)
    requires
        i <= s@.len(),
    ensures
        r == spec_parse_ipv4_from(s@, i as int),
{
    let (o0, e0) = match parse_octet(s, i) {
        Some(p) => p,
        None => {
            return None;
        },
    };
    if !(e0 < s.len() && s[e0] == DOT) {
        return None;
    }
    let (o1, e1) = match parse_octet(s, e0 + 1) {
        Some(p) => p,
        None => {
            return None;
        },
    };
    if !(e1 < s.len() && s[e1] == DOT) {
        return None;
    }
    let (o2, e2) = match parse_octet(s, e1 + 1) {
        Some(p) => p,
        None => {
            return None;
        },
    };
    if !(e2 < s.len() && s[e2] == DOT) {
        return None;
    }
    let (o3, e3) = match parse_octet(s, e2 + 1) {
        Some(p) => p,
        None => {
            return None;
        },
    };
    if e3 != s.len() {
        return None;
    }
    Some(Ipv4Address { o0, o1, o2, o3 })
}

/// Parses `s` as an IPv4 literal.
pub fn parse_ipv4(s: &[u8]) -> (r: Option<Ipv4Address>)
    ensures
        r == spec_parse_ipv4(s@),
{
    parse_ipv4_from(s, 0)
}

/// Parses the group list occupying `s[i..end]` exactly.
fn parse_groups(s: &[u8], i: usize, end: usize, v4_tail: bool) -> (r: Option<Vec<u16>>)
    requires
        i <= end <= s@.len(),
    ensures
        match r {
            Some(g) => spec_groups(s@, i as int, end as int, v4_tail) == Some(g@),
            None => spec_groups(s@, i as int, end as int, v4_tail) is None,
        },
    decreases end - i,
{
    let e = hex_run(s, i, end);
    if e == i {
        return None;
    }
    if e - i > 4 {
        return None;
    }
    let mut acc: u32 = 0;
    let mut k = i;
    while k < e
        invariant
            i <= k <= e <= end <= s@.len(),
            e - i <= 4,
            e == hex_run_end(s@, i as int, end as int),
            acc == hex_value(s@, i as int, k as int),
            k - i == 0 ==> acc == 0,
            k - i <= 1 ==> acc <= 15,
            k - i <= 2 ==> acc <= 255,
            k - i <= 3 ==> acc <= 4095,
            acc <= 65535,
        decreases e - k,
    {
        proof {
            lemma_hex_run_is_digits(s@, i as int, k as int, end as int);
        }
        let b = s[k];
        let d: u32 = if b >= 48 && b <= 57 {
            (b - 48) as u32
        } else if b >= 97 {
            (b - 97 + 10) as u32
        } else {
            (b - 65 + 10) as u32
        };
        acc = acc * 16 + d;
        k += 1;
    }
    let v: u16 = acc as u16;
    if e == end {
        let mut g: Vec<u16> = Vec::new();
        g.push(v);
        proof {
            assert(g@ =~= seq![hex_value(s@, i as int, e as int) as u16]);
        }
        return Some(g);
    }
    if s[e] == COLON {
        match parse_groups(s, e + 1, end, v4_tail) {
            Some(mut rest) => {
                let mut g: Vec<u16> = Vec::new();
                g.push(v);
                let ghost rest_view = rest@;
                g.append(&mut rest);
                proof {
                    assert(g@ =~= seq![hex_value(s@, i as int, e as int) as u16] + rest_view);
                }
                Some(g)
            },
            None => None,
        }
    } else if v4_tail && s[e] == DOT {
        match parse_ipv4_from(s, i) {
            Some(q) => {
                let h0: u16 = q.o0 as u16 * 256 + q.o1 as u16;
                let h1: u16 = q.o2 as u16 * 256 + q.o3 as u16;
                let mut g: Vec<u16> = Vec::new();
                g.push(h0);
                g.push(h1);
                proof {
                    assert(g@ =~= seq![
                        (q.o0 as u16 * 256 + q.o1 as u16) as u16,
                        (q.o2 as u16 * 256 + q.o3 as u16) as u16,
                    ]);
                }
                Some(g)
            },
            None => None,
        }
    } else {
        None
    }
}

/// Finds the first `::` at or after `i`.
fn find_dcolon(s: &[u8], i: usize) -> (r: Option<usize>)
    requires
        i <= s@.len(),
    ensures
        match r {
            Some(d) => spec_find_dcolon(s@, i as int) == Some(d as int) && i <= d && d + 1
                < s@.len(),
            None => spec_find_dcolon(s@, i as int) is None,
        },
    decreases s@.len() - i,
{
    if s.len() == 0 || i >= s.len() - 1 {
        None
    } else if s[i] == COLON && s[i + 1] == COLON {
        Some(i)
    } else {
        find_dcolon(s, i + 1)
    }
}

/// Reads one group of the completed address: the groups before the gap, then
/// the zero groups the gap stands for, then the groups after it.
fn fill_group(lg: &Vec<u16>, rg: &Vec<u16>, idx: usize) -> (r: u16)
    requires
        lg@.len() + rg@.len() <= 8,
        idx < 8,
    ensures
        r == (lg@ + zero_groups(8 - lg@.len() - rg@.len()) + rg@)[idx as int],
{
    if idx < lg.len() {
        lg[idx]
    } else if idx < 8 - rg.len() {
        0
    } else {
        rg[idx - (8 - rg.len())]
    }
}

/// Parses `s` as an IPv6 literal.
pub fn parse_ipv6(s: &[u8]) -> (r: Option<Ipv6Address>)
    ensures
        r == spec_parse_ipv6(s@),
{
    match find_dcolon(s, 0) {
        None => match parse_groups(s, 0, s.len(), true) {
            Some(g) => if g.len() == 8 {
                Some(
                    Ipv6Address {
                        g0: g[0],
                        g1: g[1],
                        g2: g[2],
                        g3: g[3],
                        g4: g[4],
                        g5: g[5],
                        g6: g[6],
                        g7: g[7],
                    },
                )
            } else {
                None
            },
            None => None,
        },
        Some(d) => {
            let left: Option<Vec<u16>> = if d == 0 {
                Some(Vec::new())
            } else {
                parse_groups(s, 0, d, false)
            };
            let right: Option<Vec<u16>> = if d + 2 == s.len() {
                Some(Vec::new())
            } else {
                parse_groups(s, d + 2, s.len(), true)
            };
            match (left, right) {
                (Some(lg), Some(rg)) => if lg.len() <= 7 && rg.len() <= 7 - lg.len() {
                    let a = Ipv6Address {
                        g0: fill_group(&lg, &rg, 0),
                        g1: fill_group(&lg, &rg, 1),
                        g2: fill_group(&lg, &rg, 2),
                        g3: fill_group(&lg, &rg, 3),
                        g4: fill_group(&lg, &rg, 4),
                        g5: fill_group(&lg, &rg, 5),
                        g6: fill_group(&lg, &rg, 6),
                        g7: fill_group(&lg, &rg, 7),
                    };
                    Some(a)
                } else {
                    None
                },
                _ => None,
            }
        },
    }
}

/// Parses `s` as an IP literal of either family.
pub fn parse_ip(s: &[u8]) -> (r: Option<IpAddress>)
    ensures
        r == spec_parse_ip(s@),
{
    match parse_ipv4(s) {
        Some(a) => Some(IpAddress::V4(a)),
        None => match parse_ipv6(s) {
            Some(a) => Some(IpAddress::V6(a)),
            None => None,
        },
    }
}

} // verus!
