use vstd::prelude::*;
use crate::ip::{groups_value, ipv4_value, IpAddress};

verus! {

// The grammar below follows the textual address forms accepted by common
// parsers: dotted-quad IPv4 (each octet 1-3 decimal digits, no redundant
// leading zero, value at most 255) and IPv6 as colon-separated groups of
// 1-4 hex digits, with at most one `::` elision and an optional embedded
// trailing IPv4 address occupying the last two groups.
/// A decimal digit.
pub open spec fn is_digit(c: char) -> bool {
    48 <= c as int && c as int <= 57
}

/// The value of a decimal digit.
pub open spec fn digit_val(c: char) -> int {
    c as int - 48
}

/// A hexadecimal digit.
pub open spec fn is_hex_digit(c: char) -> bool {
    is_digit(c) || (97 <= c as int && c as int <= 102) || (65 <= c as int && c as int <= 70)
}

/// The value of a hexadecimal digit.
pub open spec fn hex_val(c: char) -> int {
    if is_digit(c) {
        c as int - 48
    } else if 97 <= c as int && c as int <= 102 {
        c as int - 87
    } else {
        c as int - 55
    }
}

/// How many decimal digits stand at position `i`.
pub open spec fn dec_run_len(s: Seq<char>, i: int) -> int
    decreases s.len() - i,
{
    if 0 <= i < s.len() && is_digit(s[i]) {
        1 + dec_run_len(s, i + 1)
    } else {
        0
    }
}

/// How many hexadecimal digits stand at position `i`.
pub open spec fn hex_run_len(s: Seq<char>, i: int) -> int
    decreases s.len() - i,
{
    if 0 <= i < s.len() && is_hex_digit(s[i]) {
        1 + hex_run_len(s, i + 1)
    } else {
        0
    }
}

/// The value of the decimal digits s[i..j].
pub open spec fn dec_value(s: Seq<char>, i: int, j: int) -> int
    decreases j - i,
{
    if j <= i {
        0
    } else {
        dec_value(s, i, j - 1) * 10 + digit_val(s[j - 1])
    }
}

/// The value of the hexadecimal digits s[i..j].
pub open spec fn hex_value(s: Seq<char>, i: int, j: int) -> int
    decreases j - i,
{
    if j <= i {
        0
    } else {
        hex_value(s, i, j - 1) * 16 + hex_val(s[j - 1])
    }
}

/// A dotted-quad octet read at position `i`: its value and the position
/// after it. One to three digits, no redundant leading zero, at most 255.
pub open spec fn parse_octet(s: Seq<char>, i: int) -> Option<(int, int)> {
    let n = dec_run_len(s, i);
    if n < 1 || n > 3 {
        None
    } else if n > 1 && s[i] == '0' {
        None
    } else if dec_value(s, i, i + n) > 255 {
        None
    } else {
        Some((dec_value(s, i, i + n), i + n))
    }
}

/// A `.` followed by an octet, read at position `i`.
pub open spec fn parse_dot_octet(s: Seq<char>, i: int) -> Option<(int, int)> {
    if i < s.len() && s[i] == '.' {
        parse_octet(s, i + 1)
    } else {
        None
    }
}

/// A dotted-quad IPv4 address read at position `i`: its value and the
/// position after it.
pub open spec fn parse_ipv4_at(s: Seq<char>, i: int) -> Option<(int, int)> {
    match parse_octet(s, i) {
        None => None,
        Some((a, p1)) => match parse_dot_octet(s, p1) {
            None => None,
            Some((b, p2)) => match parse_dot_octet(s, p2) {
                None => None,
                Some((c, p3)) => match parse_dot_octet(s, p3) {
                    None => None,
                    Some((d, p4)) => Some((ipv4_value(a, b, c, d), p4)),
                },
            },
        },
    }
}

/// A whole string holding exactly one IPv4 address.
pub open spec fn parse_ipv4(s: Seq<char>) -> Option<int> {
    match parse_ipv4_at(s, 0) {
        Some((v, p)) => if p == s.len() {
            Some(v)
        } else {
            None
        },
        None => None,
    }
}

/// An IPv6 group read at position `i`: one to four hex digits.
pub open spec fn parse_hex_group(s: Seq<char>, i: int) -> Option<(int, int)> {
    let n = hex_run_len(s, i);
    if 1 <= n <= 4 {
        Some((hex_value(s, i, i + n), i + n))
    } else {
        None
    }
}

/// An IPv6 group at position `i`, preceded by a `:` separator for every
/// group but the first of a run.
pub open spec fn read_sep_group(s: Seq<char>, pos: int, i: int) -> Option<(int, int)> {
    if i > 0 {
        if pos < s.len() && s[pos] == ':' {
            parse_hex_group(s, pos + 1)
        } else {
            None
        }
    } else {
        parse_hex_group(s, pos)
    }
}

/// An embedded IPv4 address at position `i` of a group run, preceded by a
/// `:` separator for every position but the first.
pub open spec fn read_sep_ipv4(s: Seq<char>, pos: int, i: int) -> Option<(int, int)> {
    if i > 0 {
        if pos < s.len() && s[pos] == ':' {
            parse_ipv4_at(s, pos + 1)
        } else {
            None
        }
    } else {
        parse_ipv4_at(s, pos)
    }
}

/// A run of colon-separated IPv6 groups starting at `pos`, position `i` of
/// at most `limit` groups, with an optional embedded trailing IPv4 address
/// where at least two group slots remain. Returns the groups read so far,
/// the position after them, and whether an embedded IPv4 address ended the
/// run.
pub open spec fn read_groups(s: Seq<char>, pos: int, i: int, limit: int, acc: Seq<int>) -> (
    Seq<int>,
    int,
    bool,
)
    decreases limit - i,
{
    if i >= limit {
        (acc, pos, false)
    } else {
        let v4 = if i + 2 <= limit {
            read_sep_ipv4(s, pos, i)
        } else {
            None
        };
        match v4 {
            Some((v, p)) => (acc + seq![v / 0x1_0000, v % 0x1_0000], p, true),
            None => match read_sep_group(s, pos, i) {
                Some((g, p)) => read_groups(s, p, i + 1, limit, acc.push(g)),
                None => (acc, pos, false),
            },
        }
    }
}

/// A sequence of `n` zero groups.
pub open spec fn zero_groups(n: int) -> Seq<int> {
    Seq::new(n as nat, |k: int| 0)
}

/// A whole string holding exactly one IPv6 address: up to eight leading
/// groups; if fewer, a `::` elision standing for the missing zero groups,
/// followed by the trailing groups.
pub open spec fn parse_ipv6(s: Seq<char>) -> Option<int> {
    let (head, pos, head_v4) = read_groups(s, 0, 0, 8, Seq::empty());
    if head.len() == 8 {
        if pos == s.len() {
            Some(groups_value(head))
        } else {
            None
        }
    } else if head_v4 {
        None
    } else if pos + 2 <= s.len() && s[pos] == ':' && s[pos + 1] == ':' {
        let (tail, p2, tail_v4) = read_groups(s, pos + 2, 0, 7 - head.len() as int, Seq::empty());
        if p2 == s.len() {
            Some(groups_value(head + zero_groups(8 - head.len() - tail.len()) + tail))
        } else {
            None
        }
    } else {
        None
    }
}

/// A whole string holding one IP address of either family.
pub open spec fn spec_parse_ip(s: Seq<char>) -> Option<IpAddress> {
    match parse_ipv4(s) {
        Some(v) => Some(IpAddress::V4(v as u32)),
        None => match parse_ipv6(s) {
            Some(w) => Some(IpAddress::V6(w as u128)),
            None => None,
        },
    }
}

} // verus!

verus! {

/// The characters of a string, one by one.
pub fn chars_of(s: &str) -> (v: Vec<char>)
    ensures
        v@ == s@,
{
    let n = s.unicode_len();
    let mut v: Vec<char> = Vec::new();
    let mut i: usize = 0;
    while i < n
        invariant
            i <= n,
            n == s@.len(),
            v@ == s@.subrange(0, i as int),
        decreases n - i,
    {
        v.push(s.get_char(i));
        proof {
            assert(v@ =~= s@.subrange(0, i + 1));
        }
        i = i + 1;
    }
    proof {
        assert(v@ =~= s@);
    }
    v
}

/// A run of decimal digits covers exactly the digits before its end.
proof fn lemma_dec_run_extend(s: Seq<char>, i: int, j: int)
    requires
        0 <= i <= j <= s.len(),
        forall|k: int| i <= k < j ==> is_digit(#[trigger] s[k]),
    ensures
        dec_run_len(s, i) == (j - i) + dec_run_len(s, j),
    decreases j - i,
{
    if i < j {
        assert(is_digit(s[i]));
        lemma_dec_run_extend(s, i + 1, j);
    }
}

/// A run of hexadecimal digits covers exactly the digits before its end.
proof fn lemma_hex_run_extend(s: Seq<char>, i: int, j: int)
    requires
        0 <= i <= j <= s.len(),
        forall|k: int| i <= k < j ==> is_hex_digit(#[trigger] s[k]),
    ensures
        hex_run_len(s, i) == (j - i) + hex_run_len(s, j),
    decreases j - i,
{
    if i < j {
        assert(is_hex_digit(s[i]));
        lemma_hex_run_extend(s, i + 1, j);
    }
}

/// A digit run is never negative.
proof fn lemma_dec_run_nonneg(s: Seq<char>, i: int)
    ensures
        dec_run_len(s, i) >= 0,
    decreases s.len() - i,
{
    if 0 <= i < s.len() && is_digit(s[i]) {
        lemma_dec_run_nonneg(s, i + 1);
    }
}

/// A hexadecimal digit run is never negative.
proof fn lemma_hex_run_nonneg(s: Seq<char>, i: int)
    ensures
        hex_run_len(s, i) >= 0,
    decreases s.len() - i,
{
    if 0 <= i < s.len() && is_hex_digit(s[i]) {
        lemma_hex_run_nonneg(s, i + 1);
    }
}

/// Whether the character is a decimal digit.
fn exec_is_digit(c: char) -> (b: bool)
    ensures
        b == is_digit(c),
{
    let x = c as u32;
    48 <= x && x <= 57
}

/// Whether the character is a hexadecimal digit.
fn exec_is_hex_digit(c: char) -> (b: bool)
    ensures
        b == is_hex_digit(c),
{
    let x = c as u32;
    (48 <= x && x <= 57) || (97 <= x && x <= 102) || (65 <= x && x <= 70)
}

/// The value of a hexadecimal digit.
fn exec_hex_val(c: char) -> (v: u32)
    requires
        is_hex_digit(c),
    ensures
        v == hex_val(c),
        v <= 15,
{
    let x = c as u32;
    if x >= 97 {
        x - 87
    } else if x >= 65 {
        x - 55
    } else {
        x - 48
    }
}

/// Read one dotted-quad octet at position `i`.
fn exec_octet(cs: &Vec<char>, i: usize) -> (r: Option<(u32, usize)>)
    requires
        i <= cs@.len(),
    ensures
        match r {
            Some((v, j)) => {
                &&& parse_octet(cs@, i as int) == Some((v as int, j as int))
                &&& i < j <= cs@.len()
                &&& v <= 255
            },
            None => parse_octet(cs@, i as int) is None,
        },
{
    let ghost s = cs@;
    let mut j: usize = i;
    while j < cs.len() && j - i < 4 && exec_is_digit(cs[j])
        invariant
            i <= j <= cs@.len(),
            j - i <= 4,
            forall|k: int| i <= k < j ==> is_digit(#[trigger] cs@[k]),
        decreases cs@.len() - j,
    {
        j = j + 1;
    }
    proof {
        lemma_dec_run_extend(s, i as int, j as int);
        lemma_dec_run_nonneg(s, j as int);
    }
    if j - i == 4 {
        // at least four digits stand here, more than an octet may hold
        return None;
    }
    proof {
        assert(dec_run_len(s, j as int) == 0);
        assert(dec_run_len(s, i as int) == j - i);
    }
    let n = j - i;
    if n == 0 {
        return None;
    }
    if n > 1 && cs[i] == '0' {
        return None;
    }
    let v: u32 = if n == 1 {
        (cs[i] as u32) - 48
    } else if n == 2 {
        ((cs[i] as u32) - 48) * 10 + ((cs[i + 1] as u32) - 48)
    } else {
        ((cs[i] as u32) - 48) * 100 + ((cs[i + 1] as u32) - 48) * 10 + ((cs[i + 2] as u32) - 48)
    };
    proof {
        assert(dec_value(s, i as int, i as int) == 0);
        assert(dec_value(s, i as int, i + 1) == digit_val(s[i as int]));
        if n >= 2 {
            assert(dec_value(s, i as int, i + 2) == dec_value(s, i as int, i + 1) * 10
                + digit_val(s[i + 1]));
        }
        if n >= 3 {
            assert(dec_value(s, i as int, i + 3) == dec_value(s, i as int, i + 2) * 10
                + digit_val(s[i + 2]));
        }
        assert(v == dec_value(s, i as int, i + n));
    }
    if v > 255 {
        return None;
    }
    Some((v, j))
}

/// Read a `.` and an octet at position `i`.
fn exec_dot_octet(cs: &Vec<char>, i: usize) -> (r: Option<(u32, usize)>)
    requires
        i <= cs@.len(),
    ensures
        match r {
            Some((v, j)) => {
                &&& parse_dot_octet(cs@, i as int) == Some((v as int, j as int))
                &&& i < j <= cs@.len()
                &&& v <= 255
            },
            None => parse_dot_octet(cs@, i as int) is None,
        },
{
    if i < cs.len() && cs[i] == '.' {
        exec_octet(cs, i + 1)
    } else {
        None
    }
}

/// Read a dotted-quad IPv4 address at position `i`.
fn exec_ipv4_at(cs: &Vec<char>, i: usize) -> (r: Option<(u32, usize)>)
    requires
        i <= cs@.len(),
    ensures
        match r {
            Some((v, j)) => {
                &&& parse_ipv4_at(cs@, i as int) == Some((v as int, j as int))
                &&& i < j <= cs@.len()
            },
            None => parse_ipv4_at(cs@, i as int) is None,
        },
{
    let (a, p1) = match exec_octet(cs, i) {
        Some(x) => x,
        None => {
            return None;
        },
    };
    let (b, p2) = match exec_dot_octet(cs, p1) {
        Some(x) => x,
        None => {
            return None;
        },
    };
    let (c, p3) = match exec_dot_octet(cs, p2) {
        Some(x) => x,
        None => {
            return None;
        },
    };
    let (d, p4) = match exec_dot_octet(cs, p3) {
        Some(x) => x,
        None => {
            return None;
        },
    };
    Some((a * 0x100_0000 + b * 0x1_0000 + c * 0x100 + d, p4))
}

/// Read a whole string as an IPv4 address.
pub fn exec_parse_ipv4(cs: &Vec<char>) -> (r: Option<u32>)
    ensures
        match r {
            Some(v) => parse_ipv4(cs@) == Some(v as int),
            None => parse_ipv4(cs@) is None,
        },
{
    match exec_ipv4_at(cs, 0) {
        Some((v, p)) => if p == cs.len() {
            Some(v)
        } else {
            None
        },
        None => None,
    }
}

} // verus!

verus! {

/// Read one IPv6 group of one to four hex digits at position `i`.
fn exec_hex_group(cs: &Vec<char>, i: usize) -> (r: Option<(u16, usize)>)
    requires
        i <= cs@.len(),
    ensures
        match r {
            Some((v, j)) => {
                &&& parse_hex_group(cs@, i as int) == Some((v as int, j as int))
                &&& i < j <= cs@.len()
            },
            None => parse_hex_group(cs@, i as int) is None,
        },
{
    let ghost s = cs@;
    let mut j: usize = i;
    while j < cs.len() && j - i < 5 && exec_is_hex_digit(cs[j])
        invariant
            i <= j <= cs@.len(),
            j - i <= 5,
            forall|k: int| i <= k < j ==> is_hex_digit(#[trigger] cs@[k]),
        decreases cs@.len() - j,
    {
        j = j + 1;
    }
    proof {
        lemma_hex_run_extend(s, i as int, j as int);
        lemma_hex_run_nonneg(s, j as int);
    }
    if j - i == 5 {
        // at least five digits stand here, more than a group may hold
        return None;
    }
    proof {
        assert(hex_run_len(s, j as int) == 0);
        assert(hex_run_len(s, i as int) == j - i);
    }
    let n = j - i;
    if n == 0 {
        return None;
    }
    let v: u32 = if n == 1 {
        exec_hex_val(cs[i])
    } else if n == 2 {
        exec_hex_val(cs[i]) * 16 + exec_hex_val(cs[i + 1])
    } else if n == 3 {
        (exec_hex_val(cs[i]) * 16 + exec_hex_val(cs[i + 1])) * 16 + exec_hex_val(cs[i + 2])
    } else {
        ((exec_hex_val(cs[i]) * 16 + exec_hex_val(cs[i + 1])) * 16 + exec_hex_val(cs[i + 2])) * 16
            + exec_hex_val(cs[i + 3])
    };
    proof {
        assert(hex_value(s, i as int, i as int) == 0);
        assert(hex_value(s, i as int, i + 1) == hex_val(s[i as int]));
        if n >= 2 {
            assert(hex_value(s, i as int, i + 2) == hex_value(s, i as int, i + 1) * 16
                + hex_val(s[i + 1]));
        }
        if n >= 3 {
            assert(hex_value(s, i as int, i + 3) == hex_value(s, i as int, i + 2) * 16
                + hex_val(s[i + 2]));
        }
        if n >= 4 {
            assert(hex_value(s, i as int, i + 4) == hex_value(s, i as int, i + 3) * 16
                + hex_val(s[i + 3]));
        }
        assert(v == hex_value(s, i as int, i + n));
    }
    Some((v as u16, j))
}

/// Read a group at position `i` of a run, with its separator.
fn exec_sep_group(cs: &Vec<char>, pos: usize, i: usize) -> (r: Option<(u16, usize)>)
    requires
        pos <= cs@.len(),
    ensures
        match r {
            Some((v, j)) => {
                &&& read_sep_group(cs@, pos as int, i as int) == Some((v as int, j as int))
                &&& pos < j <= cs@.len()
            },
            None => read_sep_group(cs@, pos as int, i as int) is None,
        },
{
    if i > 0 {
        if pos < cs.len() && cs[pos] == ':' {
            exec_hex_group(cs, pos + 1)
        } else {
            None
        }
    } else {
        exec_hex_group(cs, pos)
    }
}

/// Read an embedded IPv4 address at position `i` of a run, with its
/// separator.
fn exec_sep_ipv4(cs: &Vec<char>, pos: usize, i: usize) -> (r: Option<(u32, usize)>)
    requires
        pos <= cs@.len(),
    ensures
        match r {
            Some((v, j)) => {
                &&& read_sep_ipv4(cs@, pos as int, i as int) == Some((v as int, j as int))
                &&& pos < j <= cs@.len()
            },
            None => read_sep_ipv4(cs@, pos as int, i as int) is None,
        },
{
    if i > 0 {
        if pos < cs.len() && cs[pos] == ':' {
            exec_ipv4_at(cs, pos + 1)
        } else {
            None
        }
    } else {
        exec_ipv4_at(cs, pos)
    }
}

/// Read a run of colon-separated groups with an optional embedded trailing
/// IPv4 address.
fn exec_read_groups(cs: &Vec<char>, pos0: usize, limit: usize) -> (r: (Vec<u16>, usize, bool))
    requires
        pos0 <= cs@.len(),
        limit <= 8,
    ensures
        ({
            let (gs, p, f) = read_groups(cs@, pos0 as int, 0, limit as int, Seq::empty());
            &&& gs == r.0@.map_values(|x: u16| x as int)
            &&& p == r.1 as int
            &&& f == r.2
            &&& r.1 <= cs@.len()
            &&& r.0@.len() <= limit
        }),
{
    let ghost s = cs@;
    let mut i: usize = 0;
    let mut pos: usize = pos0;
    let mut acc: Vec<u16> = Vec::new();
    proof {
        assert(acc@.map_values(|x: u16| x as int) =~= Seq::<int>::empty());
    }
    while i < limit
        invariant
            i <= limit <= 8,
            pos0 <= pos <= cs@.len(),
            s == cs@,
            acc@.len() == i,
            read_groups(s, pos0 as int, 0, limit as int, Seq::empty()) == read_groups(
                s,
                pos as int,
                i as int,
                limit as int,
                acc@.map_values(|x: u16| x as int),
            ),
        decreases limit - i,
    {
        let ghost accv = acc@.map_values(|x: u16| x as int);
        if i + 2 <= limit {
            match exec_sep_ipv4(cs, pos, i) {
                Some((v, p)) => {
                    let hi = v / 0x1_0000;
                    let lo = v % 0x1_0000;
                    acc.push(hi as u16);
                    acc.push(lo as u16);
                    proof {
                        assert(acc@.map_values(|x: u16| x as int) =~= accv + seq![
                            v as int / 0x1_0000,
                            v as int % 0x1_0000,
                        ]);
                    }
                    return (acc, p, true);
                },
                None => {
                },
            }
        }
        match exec_sep_group(cs, pos, i) {
            Some((g, p)) => {
                acc.push(g);
                proof {
                    assert(acc@.map_values(|x: u16| x as int) =~= accv.push(g as int));
                }
                pos = p;
                i = i + 1;
            },
            None => {
                return (acc, pos, false);
            },
        }
    }
    (acc, pos, false)
}

/// Fold eight 16-bit groups into the 128-bit address value.
fn fold_groups(g: &Vec<u16>) -> (w: u128)
    requires
        g@.len() == 8,
    ensures
        w as int == groups_value(g@.map_values(|x: u16| x as int)),
{
    let ghost gs = g@.map_values(|x: u16| x as int);
    let mut w: u128 = 0;
    let mut i: usize = 0;
    while i < 8
        invariant
            i <= 8,
            g@.len() == 8,
            gs == g@.map_values(|x: u16| x as int),
            w == crate::ip::groups_value_prefix(gs, i as int),
            w < crate::ip::pow16(i as int),
        decreases 8 - i,
    {
        proof {
            crate::ip::lemma_groups_value_bound(gs, i + 1);
            crate::ip::lemma_pow16_monotone(i + 1, 8);
            crate::ip::lemma_pow16_8();
        }
        w = w * 0x1_0000 + (g[i] as u128);
        i = i + 1;
    }
    w
}

/// Read a whole string as an IPv6 address.
pub fn exec_parse_ipv6(cs: &Vec<char>) -> (r: Option<u128>)
    ensures
        match r {
            Some(w) => parse_ipv6(cs@) == Some(w as int),
            None => parse_ipv6(cs@) is None,
        },
{
    let ghost s = cs@;
    let (head, pos, head_v4) = exec_read_groups(cs, 0, 8);
    let ghost headv = head@.map_values(|x: u16| x as int);
    if head.len() == 8 {
        if pos == cs.len() {
            Some(fold_groups(&head))
        } else {
            None
        }
    } else if head_v4 {
        None
    } else if pos < cs.len() && pos + 1 < cs.len() && cs[pos] == ':' && cs[pos + 1] == ':' {
        let limit = 7 - head.len();
        let (tail, p2, _tail_v4) = exec_read_groups(cs, pos + 2, limit);
        let ghost tailv = tail@.map_values(|x: u16| x as int);
        if p2 == cs.len() {
            let zeros = 8 - head.len() - tail.len();
            let mut full = head;
            let mut z: usize = 0;
            while z < zeros
                invariant
                    z <= zeros,
                    full@.map_values(|x: u16| x as int) =~= headv + zero_groups(z as int),
                decreases zeros - z,
            {
                let ghost before = full@.map_values(|x: u16| x as int);
                full.push(0);
                proof {
                    assert(full@.map_values(|x: u16| x as int) =~= before.push(0));
                    assert(before.push(0) =~= headv + zero_groups(z + 1));
                }
                z = z + 1;
            }
            let mut t: usize = 0;
            while t < tail.len()
                invariant
                    t <= tail@.len(),
                    tailv == tail@.map_values(|x: u16| x as int),
                    full@.map_values(|x: u16| x as int) =~= headv + zero_groups(zeros as int)
                        + tailv.subrange(0, t as int),
                decreases tail@.len() - t,
            {
                let ghost before = full@.map_values(|x: u16| x as int);
                full.push(tail[t]);
                proof {
                    assert(full@.map_values(|x: u16| x as int) =~= before.push(tailv[t as int]));
                    assert(before.push(tailv[t as int]) =~= headv + zero_groups(zeros as int)
                        + tailv.subrange(0, t + 1));
                }
                t = t + 1;
            }
            proof {
                assert(tailv.subrange(0, tailv.len() as int) =~= tailv);
                assert(full@.map_values(|x: u16| x as int) =~= headv + zero_groups(
                    8 - headv.len() - tailv.len(),
                ) + tailv);
                assert(full@.len() == 8);
            }
            Some(fold_groups(&full))
        } else {
            None
        }
    } else {
        None
    }
}

/// Parse one address of either family from a sequence of characters.
pub fn parse_ip_chars(cs: &Vec<char>) -> (r: Option<IpAddress>)
    ensures
        r == spec_parse_ip(cs@),
{
    match exec_parse_ipv4(cs) {
        Some(v) => Some(IpAddress::V4(v)),
        None => match exec_parse_ipv6(cs) {
            Some(w) => Some(IpAddress::V6(w)),
            None => None,
        },
    }
}

/// Parse one address of either family from its text.
pub fn parse_ip_text(s: &str) -> (r: Option<IpAddress>)
    ensures
        r == spec_parse_ip(s@),
{
    let cs = chars_of(s);
    parse_ip_chars(&cs)
}

} // verus!
