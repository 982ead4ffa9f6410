//! Network addresses as plain values, and their text.

use vstd::prelude::*;
use vstd::string::*;
use crate::text::{decimal_text, hex_text, push_decimal, push_hex};

verus! {

/// A logical interface: an IPv4 address by its four octets or an IPv6
/// address by its eight groups, most significant first.
#[derive(Clone, Copy, Debug, PartialEq, Eq)]
pub enum IpAddress {
    V4([u8; 4]),
    V6([u16; 8]),
}

/// An address and a port: what a listener is bound to.
#[derive(Clone, Copy, Debug, PartialEq, Eq)]
pub struct SocketAddress {
    pub ip: IpAddress,
    pub port: u16,
}

/// Dotted decimal: the four octets in base ten with a dot between them.
pub open spec fn ipv4_text(octets: Seq<u8>) -> Seq<char> {
    decimal_text(octets[0] as nat) + seq!['.'] + decimal_text(octets[1] as nat) + seq!['.']
        + decimal_text(octets[2] as nat) + seq!['.'] + decimal_text(octets[3] as nat)
}

/// The groups in base sixteen with a colon between them.
pub open spec fn hex_groups(groups: Seq<u16>) -> Seq<char>
    decreases groups.len(),
{
    if groups.len() == 0 {
        Seq::empty()
    } else if groups.len() == 1 {
        hex_text(groups[0] as nat)
    } else {
        hex_groups(groups.drop_last()) + seq![':'] + hex_text(groups.last() as nat)
    }
}

/// How many groups in a row are zero, counted from `from` on.
pub open spec fn zero_run_len(groups: Seq<u16>, from: int) -> nat
    decreases groups.len() - from,
{
    if 0 <= from < groups.len() && groups[from] == 0 {
        1 + zero_run_len(groups, from + 1)
    } else {
        0
    }
}

/// Start and length of the longest run of zero groups that starts before
/// `upto`; of several longest ones the first. Where no group before `upto`
/// is zero the length is 0.
pub open spec fn longest_zero_run(groups: Seq<u16>, upto: int) -> (int, nat)
    decreases upto,
{
    if upto <= 0 {
        (0, 0)
    } else {
        let best = longest_zero_run(groups, upto - 1);
        let here = zero_run_len(groups, upto - 1);
        if here > best.1 {
            (upto - 1, here)
        } else {
            best
        }
    }
}

/// Whether the groups hold an IPv4 address mapped into IPv6: five zero
/// groups, then `ffff`.
pub open spec fn is_ipv4_mapped(groups: Seq<u16>) -> bool {
    groups[0] == 0 && groups[1] == 0 && groups[2] == 0 && groups[3] == 0 && groups[4] == 0
        && groups[5] == 0xffff
}

/// The four octets that the last two groups hold.
pub open spec fn mapped_octets(groups: Seq<u16>) -> Seq<u8> {
    seq![
        (groups[6] / 256) as u8,
        (groups[6] % 256) as u8,
        (groups[7] / 256) as u8,
        (groups[7] % 256) as u8,
    ]
}

/// The text of an IPv6 address of eight groups. A mapped IPv4 address is
/// `::ffff:` and the IPv4 address in dotted decimal. Otherwise the groups
/// stand in base sixteen with colons between them, and the longest run of
/// two or more zero groups, the first of several, is shortened to `::`.
pub open spec fn ipv6_text(groups: Seq<u16>) -> Seq<char> {
    if is_ipv4_mapped(groups) {
        "::ffff:"@ + ipv4_text(mapped_octets(groups))
    } else {
        let run = longest_zero_run(groups, 8);
        if run.1 > 1 {
            hex_groups(groups.subrange(0, run.0)) + "::"@ + hex_groups(
                groups.subrange(run.0 + run.1, 8),
            )
        } else {
            hex_groups(groups)
        }
    }
}

impl IpAddress {
    /// The address as text.
    pub open spec fn text(self) -> Seq<char> {
        match self {
            IpAddress::V4(octets) => ipv4_text(octets@),
            IpAddress::V6(groups) => ipv6_text(groups@),
        }
    }

    /// Whether this is `0.0.0.0`, the IPv4 address that stands for every
    /// IPv4 address of the machine.
    pub open spec fn is_ipv4_wildcard(self) -> bool {
        self matches IpAddress::V4(octets) && octets[0] == 0 && octets[1] == 0 && octets[2] == 0
            && octets[3] == 0
    }

    /// Whether the address is an IPv6 address.
    pub fn is_ipv6(&self) -> (yes: bool)
        ensures
            yes == (self is V6),
    {
        match self {
            IpAddress::V4(_) => false,
            IpAddress::V6(_) => true,
        }
    }

    /// Whether the address is `0.0.0.0`.
    pub fn is_unspecified_v4(&self) -> (yes: bool)
        ensures
            yes == self.is_ipv4_wildcard(),
    {
        match self {
            IpAddress::V4(octets) => {
                octets[0] == 0 && octets[1] == 0 && octets[2] == 0 && octets[3] == 0
            },
            IpAddress::V6(_) => false,
        }
    }

    /// Appends the address as text to `out`.
    pub fn push_text(&self, out: &mut String)
        ensures
            final(out)@ == old(out)@ + self.text(),
    {
        match self {
            IpAddress::V4(octets) => push_ipv4(out, octets),
            IpAddress::V6(groups) => push_ipv6(out, groups),
        }
    }

    /// The address as text.
    pub fn to_text(&self) -> (out: String)
        ensures
            out@ == self.text(),
    {
        let mut out = String::new();
        self.push_text(&mut out);
        assert(out@ =~= self.text());
        out
    }
}

/// Appends the octets in dotted decimal to `out`.
pub fn push_ipv4(out: &mut String, octets: &[u8; 4])
    ensures
        final(out)@ == old(out)@ + ipv4_text(octets@),
{
    proof {
        reveal_strlit(".");
    }
    push_decimal(out, octets[0] as u32);
    out.append(".");
    push_decimal(out, octets[1] as u32);
    out.append(".");
    push_decimal(out, octets[2] as u32);
    out.append(".");
    push_decimal(out, octets[3] as u32);
    assert(out@ =~= old(out)@ + ipv4_text(octets@));
}

/// Appends the groups from `from` up to `to`, in base sixteen with colons
/// between them, to `out`.
fn push_hex_groups(out: &mut String, groups: &[u16; 8], from: usize, to: usize)
    requires
        from <= to <= 8,
    ensures
        final(out)@ == old(out)@ + hex_groups(groups@.subrange(from as int, to as int)),
{
    proof {
        reveal_strlit(":");
    }
    let mut i: usize = from;
    assert(groups@.subrange(from as int, from as int) =~= Seq::<u16>::empty());
    assert(out@ =~= old(out)@ + hex_groups(groups@.subrange(from as int, i as int)));
    while i < to
        invariant
            from <= i <= to <= 8,
            ":"@ == seq![':'],
            out@ == old(out)@ + hex_groups(groups@.subrange(from as int, i as int)),
        decreases to - i,
    {
        let ghost done = groups@.subrange(from as int, i as int);
        let ghost next = groups@.subrange(from as int, i + 1);
        assert(next.drop_last() =~= done);
        assert(next.last() == groups@[i as int]);
        if i > from {
            out.append(":");
        }
        push_hex(out, groups[i]);
        assert(out@ =~= old(out)@ + hex_groups(next));
        i = i + 1;
    }
}

/// `zero_run_len` counts up to the first group that is not zero.
proof fn lemma_zero_run(groups: Seq<u16>, from: int, end: int)
    requires
        0 <= from <= end <= groups.len(),
        forall|j: int| from <= j < end ==> groups[j] == 0,
        end < groups.len() ==> groups[end] != 0,
    ensures
        zero_run_len(groups, from) == end - from,
    decreases end - from,
{
    if from < end {
        lemma_zero_run(groups, from + 1, end);
    }
}

/// The length of the run of zero groups that starts at `from`.
fn zero_run_from(groups: &[u16; 8], from: usize) -> (len: usize)
    requires
        from < 8,
    ensures
        len == zero_run_len(groups@, from as int),
{
    let mut end: usize = from;
    while end < 8 && groups[end] == 0
        invariant
            from <= end <= 8,
            forall|j: int| from <= j < end ==> groups@[j] == 0,
        decreases 8 - end,
    {
        end = end + 1;
    }
    proof {
        lemma_zero_run(groups@, from as int, end as int);
    }
    end - from
}

/// Start and length of the longest run of zero groups, the first of
/// several.
fn find_longest_zero_run(groups: &[u16; 8]) -> (run: (usize, usize))
    ensures
        run.0 == longest_zero_run(groups@, 8).0,
        run.1 == longest_zero_run(groups@, 8).1,
        run.0 + run.1 <= 8,
{
    let mut best_start: usize = 0;
    let mut best_len: usize = 0;
    let mut i: usize = 0;
    while i < 8
        invariant
            i <= 8,
            best_start == longest_zero_run(groups@, i as int).0,
            best_len == longest_zero_run(groups@, i as int).1,
            best_start + best_len <= 8,
        decreases 8 - i,
    {
        let here = zero_run_from(groups, i);
        proof {
            lemma_zero_run_bound(groups@, i as int);
        }
        if here > best_len {
            best_start = i;
            best_len = here;
        }
        i = i + 1;
    }
    (best_start, best_len)
}

/// A run of zero groups ends within the groups.
proof fn lemma_zero_run_bound(groups: Seq<u16>, from: int)
    requires
        0 <= from <= groups.len(),
    ensures
        from + zero_run_len(groups, from) <= groups.len(),
    decreases groups.len() - from,
{
    if from < groups.len() && groups[from] == 0 {
        lemma_zero_run_bound(groups, from + 1);
    }
}

/// Appends the text of the IPv6 address of these groups to `out`.
pub fn push_ipv6(out: &mut String, groups: &[u16; 8])
    ensures
        final(out)@ == old(out)@ + ipv6_text(groups@),
{
    if groups[0] == 0 && groups[1] == 0 && groups[2] == 0 && groups[3] == 0 && groups[4] == 0
        && groups[5] == 0xffff {
        let octets: [u8; 4] = [
            (groups[6] / 256) as u8,
            (groups[6] % 256) as u8,
            (groups[7] / 256) as u8,
            (groups[7] % 256) as u8,
        ];
        assert(octets@ =~= mapped_octets(groups@));
        out.append("::ffff:");
        push_ipv4(out, &octets);
        assert(out@ =~= old(out)@ + ipv6_text(groups@));
    } else {
        let (start, len) = find_longest_zero_run(groups);
        if len > 1 {
            push_hex_groups(out, groups, 0, start);
            out.append("::");
            push_hex_groups(out, groups, start + len, 8);
            assert(out@ =~= old(out)@ + ipv6_text(groups@));
        } else {
            push_hex_groups(out, groups, 0, 8);
            assert(groups@.subrange(0, 8) =~= groups@);
        }
    }
}

} // verus!
