//! Network addresses as plain octets, and their textual rendering.
//!
//! An address is held exactly as it travels on the wire: raw octets in
//! network byte order. The text forms produced here are the ones the
//! PROXY protocol's human-readable header uses: dotted decimal for IPv4
//! and the canonical compressed hexadecimal form for IPv6 (longest zero
//! run compressed, leftmost on a tie, runs of a single group left alone,
//! IPv4-mapped addresses shown with a trailing dotted quad).

use vstd::prelude::*;

verus! {

/// An IP address as raw octets in network byte order.
#[derive(Clone, Copy, Debug)]
pub enum IpAddress {
    V4([u8; 4]),
    V6([u8; 16]),
}

/// One endpoint of a TCP connection: an IP address and a port.
#[derive(Clone, Copy, Debug)]
pub struct Endpoint {
    pub ip: IpAddress,
    pub port: u16,
}

impl IpAddress {
    /// True when `self` and `other` are both IPv4 or both IPv6.
    pub open spec fn spec_same_family(self, other: IpAddress) -> bool {
        (self is V4 && other is V4) || (self is V6 && other is V6)
    }

    pub fn same_family(&self, other: &IpAddress) -> (r: bool)
        ensures
            r == self.spec_same_family(*other),
    {
        match (self, other) {
            (IpAddress::V4(_), IpAddress::V4(_)) => true,
            (IpAddress::V6(_), IpAddress::V6(_)) => true,
            _ => false,
        }
    }
}

/// The decimal digits of `n` without the leading digit for zero:
/// empty for zero itself, most significant digit first otherwise.
pub open spec fn spec_dec_pos(n: nat) -> Seq<u8>
    decreases n,
{
    if n == 0 {
        Seq::empty()
    } else {
        spec_dec_pos(n / 10).push((48 + n % 10) as u8)
    }
}

/// The usual decimal rendering of `n`: `"0"` for zero, no leading zeros.
pub open spec fn spec_dec(n: nat) -> Seq<u8> {
    if n == 0 {
        seq![48u8]
    } else {
        spec_dec_pos(n)
    }
}

/// The lowercase hexadecimal digit with value `d`.
pub open spec fn spec_hex_digit(d: nat) -> u8 {
    if d < 10 {
        (48 + d) as u8
    } else {
        (87 + d) as u8
    }
}

/// The hexadecimal digits of `n`, empty for zero, most significant first.
pub open spec fn spec_hex_pos(n: nat) -> Seq<u8>
    decreases n,
{
    if n == 0 {
        Seq::empty()
    } else {
        spec_hex_pos(n / 16).push(spec_hex_digit(n % 16))
    }
}

/// The lowercase hexadecimal rendering of `n`: `"0"` for zero, no leading zeros.
pub open spec fn spec_hex(n: nat) -> Seq<u8> {
    if n == 0 {
        seq![48u8]
    } else {
        spec_hex_pos(n)
    }
}

fn push_dec_pos(out: &mut Vec<u8>, n: u16)
    ensures
        final(out)@ == old(out)@ + spec_dec_pos(n as nat),
    decreases n,
{
    if n == 0 {
        assert(out@ =~= old(out)@ + spec_dec_pos(0));
    } else {
        push_dec_pos(out, n / 10);
        out.push(48 + (n % 10) as u8);
        assert(out@ =~= old(out)@ + spec_dec_pos(n as nat));
    }
}

/// Append the decimal rendering of `n` to `out`.
pub fn push_dec(out: &mut Vec<u8>, n: u16)
    ensures
        final(out)@ == old(out)@ + spec_dec(n as nat),
{
    if n == 0 {
        out.push(48);
        assert(out@ =~= old(out)@ + spec_dec(0));
    } else {
        push_dec_pos(out, n);
    }
}

fn push_hex_pos(out: &mut Vec<u8>, n: u16)
    ensures
        final(out)@ == old(out)@ + spec_hex_pos(n as nat),
    decreases n,
{
    if n == 0 {
        assert(out@ =~= old(out)@ + spec_hex_pos(0));
    } else {
        push_hex_pos(out, n / 16);
        let d = (n % 16) as u8;
        if d < 10 {
            out.push(48 + d);
        } else {
            out.push(87 + d);
        }
        assert(out@ =~= old(out)@ + spec_hex_pos(n as nat));
    }
}

/// Append the lowercase hexadecimal rendering of `n` to `out`.
pub fn push_hex(out: &mut Vec<u8>, n: u16)
    ensures
        final(out)@ == old(out)@ + spec_hex(n as nat),
{
    if n == 0 {
        out.push(48);
        assert(out@ =~= old(out)@ + spec_hex(0));
    } else {
        push_hex_pos(out, n);
    }
}

/// Dotted-decimal text of four octets: `"a.b.c.d"`.
pub open spec fn spec_v4_text(a: Seq<u8>) -> Seq<u8> {
    spec_dec(a[0] as nat) + seq![46u8] + spec_dec(a[1] as nat) + seq![46u8] + spec_dec(
        a[2] as nat,
    ) + seq![46u8] + spec_dec(a[3] as nat)
}

/// Append the dotted-decimal text of `a` to `out`.
pub fn push_v4_text(out: &mut Vec<u8>, a: &[u8; 4])
    ensures
        final(out)@ == old(out)@ + spec_v4_text(a@),
{
    push_dec(out, a[0] as u16);
    out.push(46);
    push_dec(out, a[1] as u16);
    out.push(46);
    push_dec(out, a[2] as u16);
    out.push(46);
    push_dec(out, a[3] as u16);
    assert(out@ =~= old(out)@ + spec_v4_text(a@));
}

/// The `i`-th 16-bit group of an IPv6 address given as 16 octets,
/// network byte order.
pub open spec fn group_at(b: Seq<u8>, i: int) -> nat {
    (b[2 * i] * 256 + b[2 * i + 1]) as nat
}

/// How many consecutive groups starting at `i` are zero.
pub open spec fn zero_run_len(b: Seq<u8>, i: int) -> int
    decreases 8 - i,
{
    if i < 0 || i >= 8 {
        0
    } else if group_at(b, i) != 0 {
        0
    } else {
        1 + zero_run_len(b, i + 1)
    }
}

/// The start of the longest run of zero groups at or after `i`,
/// the leftmost such run on a tie.
pub open spec fn best_run_start(b: Seq<u8>, i: int) -> int
    decreases 7 - i,
{
    if i >= 7 {
        7
    } else {
        let rest = best_run_start(b, i + 1);
        if zero_run_len(b, i) >= zero_run_len(b, rest) {
            i
        } else {
            rest
        }
    }
}

/// Hexadecimal groups `i .. hi`, each preceded by a colon.
pub open spec fn spec_hex_tail(b: Seq<u8>, i: int, hi: int) -> Seq<u8>
    decreases hi - i,
{
    if i >= hi {
        Seq::empty()
    } else {
        seq![58u8] + spec_hex(group_at(b, i)) + spec_hex_tail(b, i + 1, hi)
    }
}

/// Hexadecimal groups `lo .. hi` joined by colons.
pub open spec fn spec_hex_groups(b: Seq<u8>, lo: int, hi: int) -> Seq<u8> {
    if lo >= hi {
        Seq::empty()
    } else {
        spec_hex(group_at(b, lo)) + spec_hex_tail(b, lo + 1, hi)
    }
}

/// An IPv4-mapped IPv6 address: `::ffff:a.b.c.d`.
pub open spec fn is_v4_mapped(b: Seq<u8>) -> bool {
    group_at(b, 0) == 0 && group_at(b, 1) == 0 && group_at(b, 2) == 0 && group_at(b, 3) == 0
        && group_at(b, 4) == 0 && group_at(b, 5) == 0xffff
}

/// Canonical compressed text of an IPv6 address: the longest zero run
/// (leftmost on a tie, length at least two) becomes `::`; an
/// IPv4-mapped address ends in a dotted quad.
pub open spec fn spec_v6_text(b: Seq<u8>) -> Seq<u8> {
    if is_v4_mapped(b) {
        seq![58u8, 58u8, 102u8, 102u8, 102u8, 102u8, 58u8] + spec_v4_text(b.subrange(12, 16))
    } else {
        let s = best_run_start(b, 0);
        let l = zero_run_len(b, s);
        if l >= 2 {
            spec_hex_groups(b, 0, s) + seq![58u8, 58u8] + spec_hex_groups(b, s + l, 8)
        } else {
            spec_hex_groups(b, 0, 8)
        }
    }
}

/// The text form of an address, as the PROXY protocol's text header shows it.
pub open spec fn spec_ip_text(ip: IpAddress) -> Seq<u8> {
    match ip {
        IpAddress::V4(a) => spec_v4_text(a@),
        IpAddress::V6(a) => spec_v6_text(a@),
    }
}

proof fn lemma_zero_run_len_bound(b: Seq<u8>, i: int)
    requires
        0 <= i <= 8,
    ensures
        0 <= zero_run_len(b, i) <= 8 - i,
    decreases 8 - i,
{
    if i < 8 {
        lemma_zero_run_len_bound(b, i + 1);
    }
}

fn push_hex_tail(out: &mut Vec<u8>, g: &Vec<u16>, Ghost(b): Ghost<Seq<u8>>, i: usize, hi: usize)
    requires
        g@.len() == 8,
        hi <= 8,
        forall|j: int| 0 <= j < 8 ==> g@[j] as nat == group_at(b, j),
    ensures
        final(out)@ == old(out)@ + spec_hex_tail(b, i as int, hi as int),
    decreases 8 - i,
{
    if i < hi {
        out.push(58);
        push_hex(out, g[i]);
        push_hex_tail(out, g, Ghost(b), i + 1, hi);
        assert(out@ =~= old(out)@ + spec_hex_tail(b, i as int, hi as int));
    } else {
        assert(out@ =~= old(out)@ + spec_hex_tail(b, i as int, hi as int));
    }
}

fn push_hex_groups(out: &mut Vec<u8>, g: &Vec<u16>, Ghost(b): Ghost<Seq<u8>>, lo: usize, hi: usize)
    requires
        g@.len() == 8,
        hi <= 8,
        forall|j: int| 0 <= j < 8 ==> g@[j] as nat == group_at(b, j),
    ensures
        final(out)@ == old(out)@ + spec_hex_groups(b, lo as int, hi as int),
{
    if lo < hi {
        push_hex(out, g[lo]);
        push_hex_tail(out, g, Ghost(b), lo + 1, hi);
        assert(out@ =~= old(out)@ + spec_hex_groups(b, lo as int, hi as int));
    } else {
        assert(out@ =~= old(out)@ + spec_hex_groups(b, lo as int, hi as int));
    }
}

/// Append the canonical compressed text of the 16 octets `a` to `out`.
pub fn push_v6_text(out: &mut Vec<u8>, a: &[u8; 16])
    ensures
        final(out)@ == old(out)@ + spec_v6_text(a@),
{
    let mut g: Vec<u16> = Vec::new();
    let mut k: usize = 0;
    while k < 8
        invariant
            k <= 8,
            g@.len() == k,
            forall|j: int| 0 <= j < k ==> g@[j] as nat == group_at(a@, j),
        decreases 8 - k,
    {
        g.push((a[2 * k] as u16) * 256 + (a[2 * k + 1] as u16));
        k = k + 1;
    }
    if g[0] == 0 && g[1] == 0 && g[2] == 0 && g[3] == 0 && g[4] == 0 && g[5] == 0xffff {
        assert(is_v4_mapped(a@));
        out.push(58);
        out.push(58);
        out.push(102);
        out.push(102);
        out.push(102);
        out.push(102);
        out.push(58);
        push_dec(out, a[12] as u16);
        out.push(46);
        push_dec(out, a[13] as u16);
        out.push(46);
        push_dec(out, a[14] as u16);
        out.push(46);
        push_dec(out, a[15] as u16);
        assert(out@ =~= old(out)@ + spec_v6_text(a@));
        return ;
    }
    assert(!is_v4_mapped(a@));
    let mut cur: usize = if g[7] == 0 {
        1
    } else {
        0
    };
    let mut best: usize = 7;
    let mut best_len: usize = cur;
    proof {
        assert(zero_run_len(a@, 8) == 0);
        assert(cur == zero_run_len(a@, 7));
        assert(best == best_run_start(a@, 7));
    }
    let mut i: usize = 7;
    while i > 0
        invariant
            i <= 7,
            best <= 7,
            cur <= 8 - i,
            best_len <= 8,
            g@.len() == 8,
            forall|j: int| 0 <= j < 8 ==> g@[j] as nat == group_at(a@, j),
            best == best_run_start(a@, i as int),
            best_len == zero_run_len(a@, best as int),
            cur == zero_run_len(a@, i as int),
        decreases i,
    {
        i = i - 1;
        if g[i] == 0 {
            cur = cur + 1;
        } else {
            cur = 0;
        }
        if cur >= best_len {
            best = i;
            best_len = cur;
        }
    }
    proof {
        lemma_zero_run_len_bound(a@, best as int);
    }
    if best_len >= 2 {
        push_hex_groups(out, &g, Ghost(a@), 0, best);
        out.push(58);
        out.push(58);
        push_hex_groups(out, &g, Ghost(a@), best + best_len, 8);
        assert(out@ =~= old(out)@ + spec_v6_text(a@));
    } else {
        push_hex_groups(out, &g, Ghost(a@), 0, 8);
        assert(out@ =~= old(out)@ + spec_v6_text(a@));
    }
}

/// Append the text form of `ip` to `out`.
pub fn push_ip_text(out: &mut Vec<u8>, ip: &IpAddress)
    ensures
        final(out)@ == old(out)@ + spec_ip_text(*ip),
{
    match ip {
        IpAddress::V4(a) => push_v4_text(out, a),
        IpAddress::V6(a) => push_v6_text(out, a),
    }
}

} // verus!
