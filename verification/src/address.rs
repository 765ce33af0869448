//! Internet addresses in text.

use crate::decimal::{all_digits, digits_value, is_digits, parse_decimal};
use crate::text::{find, find_first, index_of, position};
use vstd::prelude::*;
use vstd::slice::slice_subrange;
use vstd::string::*;

verus! {

/// The separator between the octets of an IPv4 address.
pub const DOT: u8 = 46;

/// The separator between the groups of an IPv6 address, and between host
/// and port.
pub const COLON: u8 = 58;

/// One octet of an IPv4 address in text: one to three digits without a
/// leading zero, at most 255.
pub open spec fn octet_of(s: Seq<u8>) -> Option<u8> {
    if 1 <= s.len() <= 3 && is_digits(s) && (s.len() == 1 || s[0] != 48) && digits_value(s)
        <= 255 {
        Some(digits_value(s) as u8)
    } else {
        None
    }
}

/// An IPv4 address in text: four octets with dots between them.
pub open spec fn ipv4_of(s: Seq<u8>) -> Option<(u8, u8, u8, u8)> {
    let d1 = index_of(s, DOT);
    let r1 = s.skip(d1 + 1);
    let d2 = index_of(r1, DOT);
    let r2 = r1.skip(d2 + 1);
    let d3 = index_of(r2, DOT);
    let r3 = r2.skip(d3 + 1);
    if d1 < s.len() && d2 < r1.len() && d3 < r2.len() {
        match (octet_of(s.take(d1)), octet_of(r1.take(d2)), octet_of(r2.take(d3)), octet_of(r3)) {
            (Some(a), Some(b), Some(c), Some(d)) => Some((a, b, c, d)),
            _ => None,
        }
    } else {
        None
    }
}

/// The value of a hexadecimal digit in either letter case.
pub open spec fn hex_digit(b: u8) -> Option<nat> {
    if 48 <= b <= 57 {
        Some((b - 48) as nat)
    } else if 97 <= b <= 102 {
        Some((b - 87) as nat)
    } else if 65 <= b <= 70 {
        Some((b - 55) as nat)
    } else {
        None
    }
}

/// Every byte is a hexadecimal digit.
pub open spec fn is_hex(s: Seq<u8>) -> bool {
    forall|i: int| 0 <= i < s.len() ==> hex_digit(#[trigger] s[i]).is_some()
}

/// The number that a string of hexadecimal digits writes.
pub open spec fn hex_value(s: Seq<u8>) -> nat
    decreases s.len(),
{
    if s.len() == 0 {
        0
    } else {
        hex_value(s.drop_last()) * 16 + hex_digit(s.last()).unwrap()
    }
}

/// One group of an IPv6 address in text: one to four hexadecimal digits.
pub open spec fn group_of(s: Seq<u8>) -> Option<u16> {
    if 1 <= s.len() <= 4 && is_hex(s) {
        Some(hex_value(s) as u16)
    } else {
        None
    }
}

/// The groups that a text writes with colons between them; where
/// `allow_v4` holds, the last field may be an IPv4 address, which stands
/// for two groups. Every field has to be a group or that address.
pub open spec fn fields_of(text: Seq<u8>, allow_v4: bool) -> Option<Seq<u16>>
    decreases text.len(),
{
    let i = index_of(text, COLON);
    if 0 <= i < text.len() {
        match (group_of(text.take(i)), fields_of(text.skip(i + 1), allow_v4)) {
            (Some(g), Some(rest)) => Some(seq![g] + rest),
            _ => None,
        }
    } else {
        match group_of(text) {
            Some(g) => Some(seq![g]),
            None => if allow_v4 {
                match ipv4_of(text) {
                    Some((a, b, c, d)) => Some(seq![(a * 256 + b) as u16, (c * 256 + d) as u16]),
                    None => None,
                }
            } else {
                None
            },
        }
    }
}

/// The groups on one side of the elision of an IPv6 address: none where
/// the side is empty.
pub open spec fn side_of(text: Seq<u8>, allow_v4: bool) -> Option<Seq<u16>> {
    if text.len() == 0 {
        Some(Seq::empty())
    } else {
        fields_of(text, allow_v4)
    }
}

/// The eight groups of an IPv6 address in text.
///
/// Without `::` the text writes all eight groups, the last two possibly as
/// an IPv4 address. With `::`, the first one splits the text in two sides
/// that together write at most seven groups, only the second side possibly
/// ending in an IPv4 address; the groups between the sides are zero.
pub open spec fn ipv6_of(s: Seq<u8>) -> Option<Seq<u16>> {
    let gap = "::".spec_bytes();
    match find_first(s, gap) {
        None => match fields_of(s, true) {
            Some(groups) => if groups.len() == 8 {
                Some(groups)
            } else {
                None
            },
            None => None,
        },
        Some(at) => match (side_of(s.take(at), false), side_of(s.skip(at + gap.len()), true)) {
            (Some(head), Some(tail)) => if head.len() + tail.len() <= 7 {
                Some(head + Seq::new((8 - head.len() - tail.len()) as nat, |i: int| 0u16) + tail)
            } else {
                None
            },
            _ => None,
        },
    }
}

fn parse_octet(s: &[u8]) -> (r: Option<u8>)
    ensures
        r == octet_of(s@),
{
    if s.len() < 1 || s.len() > 3 || !all_digits(s) {
        return None;
    }
    if s.len() > 1 && s[0] == 48 {
        return None;
    }
    match parse_decimal(s) {
        Some(v) => if v <= 255 {
            Some(v as u8)
        } else {
            None
        },
        None => None,
    }
}

/// Reads an IPv4 address.
pub fn parse_ipv4(s: &[u8]) -> (r: Option<(u8, u8, u8, u8)>)
    ensures
        r == ipv4_of(s@),
{
    let n0: usize = s.len();
    let d1: usize = match position(s, DOT) {
        Some(d) => d,
        None => {
            return None;
        },
    };
    let r1 = slice_subrange(s, d1 + 1, n0);
    assert(r1@ =~= s@.skip(d1 + 1));
    let n1: usize = r1.len();
    let d2: usize = match position(r1, DOT) {
        Some(d) => d,
        None => {
            return None;
        },
    };
    let r2 = slice_subrange(r1, d2 + 1, n1);
    assert(r2@ =~= r1@.skip(d2 + 1));
    let n2: usize = r2.len();
    let d3: usize = match position(r2, DOT) {
        Some(d) => d,
        None => {
            return None;
        },
    };
    let r3 = slice_subrange(r2, d3 + 1, n2);
    assert(r3@ =~= r2@.skip(d3 + 1));
    let o1 = slice_subrange(s, 0, d1);
    let o2 = slice_subrange(r1, 0, d2);
    let o3 = slice_subrange(r2, 0, d3);
    assert(o1@ =~= s@.take(d1 as int));
    assert(o2@ =~= r1@.take(d2 as int));
    assert(o3@ =~= r2@.take(d3 as int));
    match (parse_octet(o1), parse_octet(o2), parse_octet(o3), parse_octet(r3)) {
        (Some(a), Some(b), Some(c), Some(d)) => Some((a, b, c, d)),
        _ => None,
    }
}

fn parse_group(s: &[u8]) -> (r: Option<u16>)
    ensures
        r == group_of(s@),
{
    let total: usize = s.len();
    if total < 1 || total > 4 {
        return None;
    }
    let mut acc: u32 = 0;
    let mut i: usize = 0;
    assert(s@.take(0) =~= Seq::<u8>::empty());
    while i < total
        invariant
            total == s@.len(),
            1 <= total <= 4,
            i <= total,
            is_hex(s@.take(i as int)),
            acc == hex_value(s@.take(i as int)),
            i == 0 ==> acc == 0,
            i == 1 ==> acc < 16,
            i == 2 ==> acc < 256,
            i == 3 ==> acc < 4096,
            i == 4 ==> acc < 65536,
        decreases total - i,
    {
        let b: u8 = s[i];
        let d: u32 = if 48 <= b && b <= 57 {
            (b - 48) as u32
        } else if 97 <= b && b <= 102 {
            (b - 87) as u32
        } else if 65 <= b && b <= 70 {
            (b - 55) as u32
        } else {
            assert(hex_digit(s@[i as int]).is_none());
            return None;
        };
        proof {
            let t = s@.take(i + 1);
            assert(t.drop_last() =~= s@.take(i as int));
            assert(t.last() == b);
            assert forall|j: int| 0 <= j < t.len() implies hex_digit(#[trigger] t[j]).is_some() by {
                if j < i {
                    assert(s@.take(i as int)[j] == t[j]);
                }
            }
        }
        acc = acc * 16 + d;
        i += 1;
    }
    assert(s@.take(total as int) =~= s@);
    Some(acc as u16)
}

/// The groups read so far followed by those that the rest writes.
pub open spec fn continued(read: Seq<u16>, rest: Option<Seq<u16>>) -> Option<Seq<u16>> {
    match rest {
        Some(groups) => Some(read + groups),
        None => None,
    }
}

fn parse_fields(text: &[u8], allow_v4: bool) -> (r: Option<Vec<u16>>)
    ensures
        match r {
            Some(groups) => fields_of(text@, allow_v4) == Some(groups@),
            None => fields_of(text@, allow_v4).is_none(),
        },
{
    let total: usize = text.len();
    let mut out: Vec<u16> = Vec::new();
    let mut start: usize = 0;
    assert(text@.skip(0) =~= text@);
    loop
        invariant
            total == text@.len(),
            start <= total,
            fields_of(text@, allow_v4) == continued(
                out@,
                fields_of(text@.skip(start as int), allow_v4),
            ),
        decreases total - start,
    {
        let rest = slice_subrange(text, start, total);
        assert(rest@ =~= text@.skip(start as int));
        let ghost read = out@;
        match position(rest, COLON) {
            Some(i) => {
                let field = slice_subrange(rest, 0, i);
                assert(field@ =~= rest@.take(i as int));
                match parse_group(field) {
                    None => {
                        return None;
                    },
                    Some(g) => {
                        out.push(g);
                        proof {
                            assert(rest@.skip(i + 1) =~= text@.skip(start + i + 1));
                            let after = fields_of(rest@.skip(i + 1), allow_v4);
                            if after.is_some() {
                                assert(read + (seq![g] + after.unwrap()) =~= read.push(g)
                                    + after.unwrap());
                            }
                        }
                        start = start + i + 1;
                    },
                }
            },
            None => {
                match parse_group(rest) {
                    Some(g) => {
                        out.push(g);
                        assert(out@ =~= read + seq![g]);
                        return Some(out);
                    },
                    None => {
                        if !allow_v4 {
                            return None;
                        }
                        match parse_ipv4(rest) {
                            Some((a, b, c, d)) => {
                                let high: u16 = (a as u16) * 256 + b as u16;
                                let low: u16 = (c as u16) * 256 + d as u16;
                                out.push(high);
                                out.push(low);
                                assert(out@ =~= read + seq![high, low]);
                                return Some(out);
                            },
                            None => {
                                return None;
                            },
                        }
                    },
                }
            },
        }
    }
}

fn parse_side(text: &[u8], allow_v4: bool) -> (r: Option<Vec<u16>>)
    ensures
        match r {
            Some(groups) => side_of(text@, allow_v4) == Some(groups@),
            None => side_of(text@, allow_v4).is_none(),
        },
{
    if text.len() == 0 {
        Some(Vec::new())
    } else {
        parse_fields(text, allow_v4)
    }
}

fn eight(groups: &Vec<u16>) -> (r: [u16; 8])
    requires
        groups@.len() == 8,
    ensures
        r@ == groups@,
{
    let r = [
        groups[0],
        groups[1],
        groups[2],
        groups[3],
        groups[4],
        groups[5],
        groups[6],
        groups[7],
    ];
    assert(r@ =~= groups@);
    r
}

/// Reads an IPv6 address.
pub fn parse_ipv6(s: &[u8]) -> (r: Option<[u16; 8]>)
    ensures
        match r {
            Some(groups) => ipv6_of(s@) == Some(groups@),
            None => ipv6_of(s@).is_none(),
        },
{
    let gap = "::".as_bytes();
    let total: usize = s.len();
    match find(s, gap) {
        None => match parse_fields(s, true) {
            Some(groups) => if groups.len() == 8 {
                Some(eight(&groups))
            } else {
                None
            },
            None => None,
        },
        Some(at) => {
            let head_text = slice_subrange(s, 0, at);
            let tail_text = slice_subrange(s, at + gap.len(), total);
            assert(head_text@ =~= s@.take(at as int));
            assert(tail_text@ =~= s@.skip(at + gap@.len()));
            match (parse_side(head_text, false), parse_side(tail_text, true)) {
                (Some(head), Some(tail)) => {
                    if head.len() > 7 || tail.len() > 7 - head.len() {
                        return None;
                    }
                    let missing: usize = 8 - head.len() - tail.len();
                    let mut all = head;
                    let ghost first = all@;
                    let mut k: usize = 0;
                    while k < missing
                        invariant
                            k <= missing,
                            all@ == first + Seq::new(k as nat, |i: int| 0u16),
                        decreases missing - k,
                    {
                        all.push(0);
                        assert(all@ =~= first + Seq::new((k + 1) as nat, |i: int| 0u16));
                        k += 1;
                    }
                    all.extend_from_slice(tail.as_slice());
                    Some(eight(&all))
                },
                _ => None,
            }
        },
    }
}

/// Whether the text is an IPv4 address.
pub fn is_ipv4_text(s: &[u8]) -> (r: bool)
    ensures
        r == ipv4_of(s@).is_some(),
{
    parse_ipv4(s).is_some()
}

/// Whether the text is an IPv6 address.
pub fn is_ipv6_text(s: &[u8]) -> (r: bool)
    ensures
        r == ipv6_of(s@).is_some(),
{
    parse_ipv6(s).is_some()
}

} // verus!
