use vstd::prelude::*;

verus! {

/// An IP address, held as its numeric value: a 32-bit integer for IPv4
/// (most significant byte first), a 128-bit integer for IPv6.
#[derive(Clone, Copy, PartialEq, Eq, Structural, Debug)]
pub enum IpAddress {
    V4(u32),
    V6(u128),
}

/// The numeric value of the dotted quad a.b.c.d.
pub open spec fn ipv4_value(a: int, b: int, c: int, d: int) -> int {
    a * 0x100_0000 + b * 0x1_0000 + c * 0x100 + d
}

/// The numeric value of the first `n` groups of a sequence of 16-bit
/// groups, folded in from the most significant end.
pub open spec fn groups_value_prefix(g: Seq<int>, n: int) -> int
    decreases n,
{
    if n <= 0 {
        0
    } else {
        groups_value_prefix(g, n - 1) * 0x1_0000 + g[n - 1]
    }
}

/// The numeric value of a full sequence of 16-bit groups.
pub open spec fn groups_value(g: Seq<int>) -> int {
    groups_value_prefix(g, g.len() as int)
}

/// 0x1_0000 raised to the power `n`.
pub open spec fn pow16(n: int) -> int
    decreases n,
{
    if n <= 0 {
        1
    } else {
        0x1_0000 * pow16(n - 1)
    }
}

/// A sequence of groups in range folds to a value below `pow16` of its length.
pub proof fn lemma_groups_value_bound(g: Seq<int>, n: int)
    requires
        0 <= n <= g.len(),
        forall|k: int| 0 <= k < n ==> 0 <= #[trigger] g[k] < 0x1_0000,
    ensures
        0 <= groups_value_prefix(g, n) < pow16(n),
    decreases n,
{
    if n > 0 {
        lemma_groups_value_bound(g, n - 1);
        assert(groups_value_prefix(g, n) == groups_value_prefix(g, n - 1) * 0x1_0000 + g[n - 1]);
        assert(groups_value_prefix(g, n - 1) * 0x1_0000 + g[n - 1] < pow16(n - 1) * 0x1_0000)
            by (nonlinear_arith)
            requires
                groups_value_prefix(g, n - 1) < pow16(n - 1),
                g[n - 1] < 0x1_0000,
        ;
        assert(0 <= groups_value_prefix(g, n - 1) * 0x1_0000 + g[n - 1]) by (nonlinear_arith)
            requires
                0 <= groups_value_prefix(g, n - 1),
                0 <= g[n - 1],
        ;
    }
}

/// `pow16` of eight groups is the size of the IPv6 address space.
pub proof fn lemma_pow16_8()
    ensures
        pow16(8) == 0x1_0000_0000_0000_0000_0000_0000_0000_0000,
{
    reveal_with_fuel(pow16, 9);
}

impl IpAddress {
    /// A single integer that identifies the address across both families:
    /// IPv4 addresses occupy [0, 2^32), IPv6 addresses follow above them.
    pub open spec fn key(self) -> int {
        match self {
            IpAddress::V4(v) => v as int,
            IpAddress::V6(w) => 0x1_0000_0000 + w as int,
        }
    }

    /// Build an IPv4 address from its four dotted-quad octets.
    pub fn v4(a: u8, b: u8, c: u8, d: u8) -> (r: Self)
        ensures
            r == IpAddress::V4(ipv4_value(a as int, b as int, c as int, d as int) as u32),
            ipv4_value(a as int, b as int, c as int, d as int) <= u32::MAX,
    {
        IpAddress::V4(
            (a as u32) * 0x100_0000 + (b as u32) * 0x1_0000 + (c as u32) * 0x100 + (d as u32),
        )
    }

    /// Build an IPv6 address from its eight 16-bit groups.
    pub fn v6(g: [u16; 8]) -> (r: Self)
        ensures
            r == IpAddress::V6(groups_value(g@.map_values(|x: u16| x as int)) as u128),
            groups_value(g@.map_values(|x: u16| x as int)) <= u128::MAX,
    {
        let ghost gs = g@.map_values(|x: u16| x as int);
        let mut w: u128 = 0;
        let mut i: usize = 0;
        while i < 8
            invariant
                i <= 8,
                gs == g@.map_values(|x: u16| x as int),
                w == groups_value_prefix(gs, i as int),
                w < pow16(i as int),
            decreases 8 - i,
        {
            proof {
                lemma_groups_value_bound(gs, i + 1);
                assert(pow16(i + 1) <= pow16(8)) by {
                    lemma_pow16_monotone(i + 1, 8);
                }
                lemma_pow16_8();
            }
            w = w * 0x1_0000 + (g[i] as u128);
            i = i + 1;
        }
        proof {
            lemma_groups_value_bound(gs, 8);
            lemma_pow16_8();
        }
        IpAddress::V6(w)
    }
}

/// `pow16` is always positive.
pub proof fn lemma_pow16_pos(n: int)
    ensures
        pow16(n) >= 1,
    decreases n,
{
    if n > 0 {
        lemma_pow16_pos(n - 1);
        assert(0x1_0000 * pow16(n - 1) >= pow16(n - 1)) by (nonlinear_arith)
            requires
                pow16(n - 1) >= 1,
        ;
    }
}

/// `pow16` never decreases with its argument.
pub proof fn lemma_pow16_monotone(m: int, n: int)
    requires
        m <= n,
    ensures
        pow16(m) <= pow16(n),
    decreases n - m,
{
    lemma_pow16_pos(m);
    if m < n {
        lemma_pow16_monotone(m, n - 1);
        if n > 0 {
            lemma_pow16_pos(n - 1);
            assert(0x1_0000 * pow16(n - 1) >= pow16(n - 1)) by (nonlinear_arith)
                requires
                    pow16(n - 1) >= 1,
            ;
        }
    }
}

/// IPv4 addresses reserved for private networks: 10/8, 172.16/12, 192.168/16.
pub open spec fn spec_v4_private(v: u32) -> bool {
    (v >> 24) == 10 || (v >> 20) == 0xAC1 || (v >> 16) == 0xC0A8
}

/// IPv4 loopback: 127/8.
pub open spec fn spec_v4_loopback(v: u32) -> bool {
    (v >> 24) == 127
}

/// IPv4 multicast: 224/4.
pub open spec fn spec_v4_multicast(v: u32) -> bool {
    (v >> 28) == 0xE
}

/// The IPv4 limited-broadcast address 255.255.255.255.
pub open spec fn spec_v4_broadcast(v: u32) -> bool {
    v == 0xFFFF_FFFFu32
}

/// The IPv4 unspecified address 0.0.0.0.
pub open spec fn spec_v4_unspecified(v: u32) -> bool {
    v == 0
}

/// The IPv6 unspecified address ::.
pub open spec fn spec_v6_unspecified(w: u128) -> bool {
    w == 0
}

/// The IPv6 loopback address ::1.
pub open spec fn spec_v6_loopback(w: u128) -> bool {
    w == 1
}

/// IPv6 multicast: ff00::/8.
pub open spec fn spec_v6_multicast(w: u128) -> bool {
    (w >> 120) == 0xFF
}

/// An address reserved for private, local, multicast or broadcast use,
/// disallowed as a lookup target.
pub open spec fn spec_is_special(ip: IpAddress) -> bool {
    match ip {
        IpAddress::V4(v) => spec_v4_private(v) || spec_v4_loopback(v) || spec_v4_multicast(v)
            || spec_v4_broadcast(v) || spec_v4_unspecified(v),
        IpAddress::V6(w) => spec_v6_unspecified(w) || spec_v6_loopback(w) || spec_v6_multicast(
            w,
        ),
    }
}

} // verus!
