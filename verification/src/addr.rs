//! Textual forms of IPv4 and IPv6 addresses.

use vstd::prelude::*;
use crate::text::{decimal, digit_char, push_decimal};

verus! {

/// Four octets in dotted-decimal form, such as `10.0.0.1`.
pub open spec fn dotted(b0: u8, b1: u8, b2: u8, b3: u8) -> Seq<char> {
    decimal(b0 as nat) + seq!['.'] + decimal(b1 as nat) + seq!['.'] + decimal(b2 as nat) + seq![
        '.',
    ] + decimal(b3 as nat)
}

/// The text of an IPv4 address given as its four octets.
pub open spec fn ipv4_text(a: Seq<u8>) -> Seq<char>
    recommends
        a.len() == 4,
{
    dotted(a[0], a[1], a[2], a[3])
}

/// The lower-case character of a hexadecimal digit.
pub open spec fn hex_char(d: nat) -> char {
    if d < 10 {
        digit_char(d)
    } else if d == 10 {
        'a'
    } else if d == 11 {
        'b'
    } else if d == 12 {
        'c'
    } else if d == 13 {
        'd'
    } else if d == 14 {
        'e'
    } else {
        'f'
    }
}

/// The lower-case hexadecimal numeral of `n`, without leading zeros.
pub open spec fn hex(n: nat) -> Seq<char>
    decreases n,
{
    if n < 16 {
        seq![hex_char(n)]
    } else {
        hex(n / 16).push(hex_char(n % 16))
    }
}

/// The `i`-th 16-bit group of an IPv6 address given as sixteen octets.
pub open spec fn group(a: Seq<u8>, i: int) -> nat {
    a[2 * i] as nat * 256 + a[2 * i + 1] as nat
}

/// How many groups in a row are zero, from group `start` on.
pub open spec fn zero_run(a: Seq<u8>, start: int) -> nat
    decreases 8 - start,
{
    if 0 <= start < 8 && group(a, start) == 0 {
        1 + zero_run(a, start + 1)
    } else {
        0
    }
}

/// Among the groups below `n`, the first at which the longest run of zero
/// groups starts.
pub open spec fn longest_run_start(a: Seq<u8>, n: int) -> int
    decreases n,
{
    if n <= 1 {
        0
    } else {
        let best = longest_run_start(a, n - 1);
        if zero_run(a, n - 1) > zero_run(a, best) {
            n - 1
        } else {
            best
        }
    }
}

/// The groups from `from` up to, not including, `to`, each in hexadecimal,
/// with a colon between neighbours.
pub open spec fn groups_text(a: Seq<u8>, from: int, to: int) -> Seq<char>
    decreases to - from,
{
    if from >= to {
        Seq::empty()
    } else if from + 1 == to {
        hex(group(a, from))
    } else {
        groups_text(a, from, to - 1) + seq![':'] + hex(group(a, to - 1))
    }
}

/// Whether the address is an IPv4 address mapped into IPv6: ten zero
/// octets, two octets of `0xff`, then the IPv4 address.
pub open spec fn is_v4_mapped(a: Seq<u8>) -> bool {
    &&& forall|i: int| 0 <= i < 10 ==> a[i] == 0
    &&& a[10] == 0xff
    &&& a[11] == 0xff
}

/// The canonical text of an IPv6 address given as its sixteen octets. A
/// mapped IPv4 address is written `::ffff:` and the dotted form. Otherwise
/// the groups are written in hexadecimal, and the first of the longest runs
/// of two or more zero groups is shortened to `::`.
pub open spec fn ipv6_text(a: Seq<u8>) -> Seq<char>
    recommends
        a.len() == 16,
{
    if is_v4_mapped(a) {
        seq![':', ':', 'f', 'f', 'f', 'f', ':'] + dotted(a[12], a[13], a[14], a[15])
    } else {
        let start = longest_run_start(a, 8);
        let run = zero_run(a, start);
        if run > 1 {
            groups_text(a, 0, start) + seq![':', ':'] + groups_text(a, start + run, 8)
        } else {
            groups_text(a, 0, 8)
        }
    }
}

/// Appends four octets in dotted-decimal form.
pub fn push_dotted(out: &mut String, b0: u8, b1: u8, b2: u8, b3: u8)
    ensures
        final(out)@ == old(out)@ + dotted(b0, b1, b2, b3),
{
    push_decimal(out, b0 as u64);
    out.push('.');
    push_decimal(out, b1 as u64);
    out.push('.');
    push_decimal(out, b2 as u64);
    out.push('.');
    push_decimal(out, b3 as u64);
    assert(out@ =~= old(out)@ + dotted(b0, b1, b2, b3));
}

/// The dotted-decimal text of an IPv4 address.
pub fn ipv4_string(a: &[u8; 4]) -> (s: String)
    ensures
        s@ == ipv4_text(a@),
{
    let mut out = String::new();
    push_dotted(&mut out, a[0], a[1], a[2], a[3]);
    assert(out@ =~= ipv4_text(a@));
    out
}

/// The lower-case hexadecimal digit of a value below sixteen.
pub fn hex_digit_of(d: u8) -> (c: char)
    requires
        d < 16,
    ensures
        c == hex_char(d as nat),
{
    if d < 10 {
        crate::text::digit_of(d)
    } else if d == 10 {
        'a'
    } else if d == 11 {
        'b'
    } else if d == 12 {
        'c'
    } else if d == 13 {
        'd'
    } else if d == 14 {
        'e'
    } else {
        'f'
    }
}

/// Appends the hexadecimal numeral of `n`.
pub fn push_hex(out: &mut String, n: u16)
    ensures
        final(out)@ == old(out)@ + hex(n as nat),
    decreases n,
{
    if n < 16 {
        out.push(hex_digit_of(n as u8));
        assert(out@ =~= old(out)@ + hex(n as nat));
    } else {
        push_hex(out, n / 16);
        out.push(hex_digit_of((n % 16) as u8));
        assert(out@ =~= old(out)@ + hex(n as nat));
    }
}

/// The `i`-th 16-bit group of an address.
pub fn group_of(a: &[u8; 16], i: usize) -> (g: u16)
    requires
        i < 8,
    ensures
        g == group(a@, i as int),
{
    let hi: u16 = a[2 * i] as u16;
    let lo: u16 = a[2 * i + 1] as u16;
    hi * 256 + lo
}

/// The length of the run of zero groups that starts at group `start`.
pub fn zero_run_at(a: &[u8; 16], start: usize) -> (run: usize)
    requires
        start <= 8,
    ensures
        run == zero_run(a@, start as int),
        start + run <= 8,
    decreases 8 - start,
{
    if start < 8 && group_of(a, start) == 0 {
        1 + zero_run_at(a, start + 1)
    } else {
        0
    }
}

/// Where the first of the longest runs of zero groups starts, and how long
/// it is.
pub fn longest_zero_run(a: &[u8; 16]) -> (r: (usize, usize))
    ensures
        r.0 == longest_run_start(a@, 8),
        r.1 == zero_run(a@, r.0 as int),
        r.0 + r.1 <= 8,
{
    let mut best: usize = 0;
    let mut best_run: usize = zero_run_at(a, 0);
    let mut n: usize = 1;
    while n < 8
        invariant
            1 <= n <= 8,
            best < n,
            best == longest_run_start(a@, n as int),
            best_run == zero_run(a@, best as int),
            best + best_run <= 8,
        decreases 8 - n,
    {
        let run = zero_run_at(a, n);
        if run > best_run {
            best = n;
            best_run = run;
        }
        n = n + 1;
    }
    (best, best_run)
}

/// Appends the groups from `from` up to `to`, with colons between them.
pub fn push_groups(out: &mut String, a: &[u8; 16], from: usize, to: usize)
    requires
        from <= to <= 8,
    ensures
        final(out)@ == old(out)@ + groups_text(a@, from as int, to as int),
{
    let mut i: usize = from;
    assert(out@ =~= old(out)@ + groups_text(a@, from as int, i as int));
    while i < to
        invariant
            from <= i <= to <= 8,
            out@ == old(out)@ + groups_text(a@, from as int, i as int),
        decreases to - i,
    {
        if i > from {
            out.push(':');
        }
        push_hex(out, group_of(a, i));
        i = i + 1;
        assert(out@ =~= old(out)@ + groups_text(a@, from as int, i as int));
    }
}

/// Whether the address is an IPv4 address mapped into IPv6.
pub fn is_mapped(a: &[u8; 16]) -> (b: bool)
    ensures
        b == is_v4_mapped(a@),
{
    let mut i: usize = 0;
    while i < 10
        invariant
            i <= 10,
            forall|k: int| 0 <= k < i ==> a@[k] == 0,
        decreases 10 - i,
    {
        if a[i] != 0 {
            return false;
        }
        i = i + 1;
    }
    a[10] == 0xff && a[11] == 0xff
}

/// The canonical text of an IPv6 address.
pub fn ipv6_string(a: &[u8; 16]) -> (s: String)
    ensures
        s@ == ipv6_text(a@),
{
    let mut out = String::new();
    if is_mapped(a) {
        out.push(':');
        out.push(':');
        out.push('f');
        out.push('f');
        out.push('f');
        out.push('f');
        out.push(':');
        push_dotted(&mut out, a[12], a[13], a[14], a[15]);
        assert(out@ =~= ipv6_text(a@));
    } else {
        let (start, run) = longest_zero_run(a);
        if run > 1 {
            push_groups(&mut out, a, 0, start);
            out.push(':');
            out.push(':');
            push_groups(&mut out, a, start + run, 8);
            assert(out@ =~= ipv6_text(a@));
        } else {
            push_groups(&mut out, a, 0, 8);
            assert(out@ =~= ipv6_text(a@));
        }
    }
    out
}

} // verus!
