//! Client network addresses, the key for both ban and rate state.

use vstd::prelude::*;

use crate::ids::spec_parse_u32;
use crate::ids::parse_u32;

verus! {

/// A client's network address (the IP only; ports are irrelevant to
/// banning and rate counting).
#[derive(Clone, Copy, PartialEq, Eq, Structural, Hash, Debug)]
pub enum ClientAddr {
    /// An IPv4 address as its 32-bit big-endian value.
    V4(u32),
    /// An IPv6 address as its 128-bit big-endian value.
    V6(u128),
}

impl ClientAddr {
    /// Builds an IPv4 address from its four dotted-quad octets.
    pub fn from_octets(a: u8, b: u8, c: u8, d: u8) -> (r: ClientAddr)
        ensures
            r == ClientAddr::V4(
                ((a as u32) * 0x1000000 + (b as u32) * 0x10000 + (c as u32) * 0x100
                    + (d as u32)) as u32,
            ),
    {
        let value: u32 = (a as u32) * 0x1000000 + (b as u32) * 0x10000 + (c as u32) * 0x100
            + (d as u32);
        ClientAddr::V4(value)
    }
}

/// Exactly three dots stand in `s`, at `i < j < k` and nowhere else.
pub open spec fn dotted_quad_split(s: Seq<char>, i: int, j: int, k: int) -> bool {
    &&& 0 <= i < j < k < s.len()
    &&& s[i] == '.'
    &&& s[j] == '.'
    &&& s[k] == '.'
    &&& forall|m: int| 0 <= m < s.len() && s[m] == '.' ==> m == i || m == j || m == k
}

/// The value of one dotted-quad octet: a decimal number up to 255,
/// written without a leading zero.
pub open spec fn octet_value(p: Seq<char>) -> Option<u32> {
    match spec_parse_u32(p) {
        Some(v) => if v <= 255 && (p.len() == 1 || p[0] != '0') {
            Some(v)
        } else {
            None
        },
        None => None,
    }
}

/// The address a dotted quad split at `i < j < k` denotes, if all four
/// octets are well-formed.
pub open spec fn quad_value(s: Seq<char>, i: int, j: int, k: int) -> Option<ClientAddr> {
    let a = octet_value(s.subrange(0, i));
    let b = octet_value(s.subrange(i + 1, j));
    let c = octet_value(s.subrange(j + 1, k));
    let d = octet_value(s.subrange(k + 1, s.len() as int));
    if a is Some && b is Some && c is Some && d is Some {
        Some(
            ClientAddr::V4(
                (a->0 * 0x1000000 + b->0 * 0x10000 + c->0 * 0x100 + d->0) as u32,
            ),
        )
    } else {
        None
    }
}

/// What parsing an IPv4 address yields: the value of the dotted quad
/// when `s` splits into four well-formed octets, and nothing
/// otherwise.
pub open spec fn spec_parse_ipv4(s: Seq<char>) -> Option<ClientAddr> {
    if exists|i: int, j: int, k: int| dotted_quad_split(s, i, j, k) {
        let (i, j, k) = choose|i: int, j: int, k: int| dotted_quad_split(s, i, j, k);
        quad_value(s, i, j, k)
    } else {
        None
    }
}

/// A string has at most one dotted-quad split.
proof fn lemma_split_unique(s: Seq<char>, i1: int, j1: int, k1: int, i2: int, j2: int, k2: int)
    requires
        dotted_quad_split(s, i1, j1, k1),
        dotted_quad_split(s, i2, j2, k2),
    ensures
        i1 == i2 && j1 == j2 && k1 == k2,
{
    assert(i1 == i2 || i1 == j2 || i1 == k2);
    assert(j1 == i2 || j1 == j2 || j1 == k2);
    assert(k1 == i2 || k1 == j2 || k1 == k2);
    assert(i2 == i1 || i2 == j1 || i2 == k1);
    assert(j2 == i1 || j2 == j1 || j2 == k1);
    assert(k2 == i1 || k2 == j1 || k2 == k1);
}

/// Parses one octet of a dotted quad.
fn parse_octet(p: &str) -> (r: Option<u32>)
    ensures
        r == octet_value(p@),
{
    match parse_u32(p) {
        Some(v) => {
            if v > 255 {
                return None;
            }
            if p.unicode_len() != 1 && p.get_char(0) == '0' {
                return None;
            }
            Some(v)
        },
        None => None,
    }
}

/// Parses an IPv4 address in dotted-quad form: four decimal octets up
/// to 255, none with a leading zero, separated by single dots.
pub fn parse_ipv4(s: &str) -> (r: Option<ClientAddr>)
    ensures
        r == spec_parse_ipv4(s@),
{
    let n = s.unicode_len();
    let mut dots: Vec<usize> = Vec::new();
    let mut m: usize = 0;
    while m < n
        invariant
            0 <= m <= n,
            n == s@.len(),
            dots@.len() <= 3,
            forall|t: int|
                0 <= t < dots@.len() ==> 0 <= #[trigger] dots@[t] < m && s@[dots@[t] as int]
                    == '.',
            forall|p: int| 0 <= p < m && s@[p] == '.' ==> dots@.contains(p as usize),
            forall|t1: int, t2: int| 0 <= t1 < t2 < dots@.len() ==> dots@[t1] < dots@[t2],
        decreases n - m,
    {
        if s.get_char(m) == '.' {
            if dots.len() == 3 {
                // A fourth dot: no split can name all four positions.
                proof {
                    if exists|i: int, j: int, k: int| dotted_quad_split(s@, i, j, k) {
                        let (i, j, k) = choose|i: int, j: int, k: int|
                            dotted_quad_split(s@, i, j, k);
                        let d0 = dots@[0] as int;
                        let d1 = dots@[1] as int;
                        let d2 = dots@[2] as int;
                        assert(d0 == i || d0 == j || d0 == k);
                        assert(d1 == i || d1 == j || d1 == k);
                        assert(d2 == i || d2 == j || d2 == k);
                        assert(m == i || m == j || m == k);
                        assert(d0 < d1 < d2 < m);
                        assert(false);
                    }
                }
                return None;
            }
            let ghost before = dots@;
            dots.push(m);
            proof {
                assert forall|p: int| 0 <= p < m + 1 && s@[p] == '.' implies dots@.contains(
                    p as usize,
                ) by {
                    if p < m {
                        assert(before.contains(p as usize));
                        let t = choose|t: int| 0 <= t < before.len() && before[t] == p as usize;
                        assert(dots@[t] == p as usize);
                    } else {
                        assert(dots@[before.len() as int] == m);
                    }
                }
            }
        }
        m = m + 1;
    }
    if dots.len() != 3 {
        // Fewer than three dots: no split exists.
        proof {
            if exists|i: int, j: int, k: int| dotted_quad_split(s@, i, j, k) {
                let (i, j, k) = choose|i: int, j: int, k: int| dotted_quad_split(s@, i, j, k);
                assert(dots@.contains(i as usize));
                assert(dots@.contains(j as usize));
                assert(dots@.contains(k as usize));
                let ti = choose|t: int| 0 <= t < dots@.len() && dots@[t] == i as usize;
                let tj = choose|t: int| 0 <= t < dots@.len() && dots@[t] == j as usize;
                let tk = choose|t: int| 0 <= t < dots@.len() && dots@[t] == k as usize;
                assert(ti != tj && tj != tk && ti != tk);
                assert(dots@.len() >= 3);
                assert(false);
            }
        }
        return None;
    }
    let i = dots[0];
    let j = dots[1];
    let k = dots[2];
    proof {
        assert forall|p: int| 0 <= p < s@.len() && s@[p] == '.' implies p == i as int || p
            == j as int || p == k as int by {
            assert(dots@.contains(p as usize));
            let t = choose|t: int| 0 <= t < dots@.len() && dots@[t] == p as usize;
            assert(t == 0 || t == 1 || t == 2);
        }
        assert(dotted_quad_split(s@, i as int, j as int, k as int));
        let (ci, cj, ck) = choose|ci: int, cj: int, ck: int| dotted_quad_split(s@, ci, cj, ck);
        lemma_split_unique(s@, i as int, j as int, k as int, ci, cj, ck);
    }
    let p0 = s.substring_char(0, i);
    let p1 = s.substring_char(i + 1, j);
    let p2 = s.substring_char(j + 1, k);
    let p3 = s.substring_char(k + 1, n);
    let a = parse_octet(p0);
    let b = parse_octet(p1);
    let c = parse_octet(p2);
    let d = parse_octet(p3);
    match (a, b, c, d) {
        (Some(a), Some(b), Some(c), Some(d)) => Some(
            ClientAddr::V4(a * 0x1000000 + b * 0x10000 + c * 0x100 + d),
        ),
        _ => None,
    }
}

} // verus!
