//! Validators and converters for IPv4 literals, subnet masks and VLAN lists.

use vstd::prelude::*;
use crate::text::{
    append_str, dec, fields, parse_uint, parse_unsigned, push_dec, split_char, string_of, views,
};

verus! {

/// A dotted-quad piece that reads as a byte.
pub open spec fn octet_ok(f: Seq<char>) -> bool {
    parse_unsigned(f, 255) is Some
}

/// Exactly four dot-separated pieces, each a byte.
pub open spec fn valid_ipv4(s: Seq<char>) -> bool {
    let f = fields(s, '.');
    f.len() == 4 && forall|i: int| 0 <= i < 4 ==> octet_ok(#[trigger] f[i])
}

/// The byte values of the pieces that read as bytes, in order; the others are skipped.
pub open spec fn octet_values(fs: Seq<Seq<char>>) -> Seq<nat>
    decreases fs.len(),
{
    if fs.len() == 0 {
        seq![]
    } else {
        let r = octet_values(fs.drop_last());
        match parse_unsigned(fs.last(), 255) {
            Some(v) => r.push(v),
            None => r,
        }
    }
}

/// The number of one bits of `n`.
pub open spec fn popcount(n: nat) -> nat
    decreases n,
{
    if n == 0 {
        0
    } else {
        popcount(n / 2) + n % 2
    }
}

/// Prefix length of a dotted mask: the number of one bits of the 32-bit value that its
/// four byte pieces form; 24 where the text does not hold exactly four bytes.
pub open spec fn mask_bits(s: Seq<char>) -> nat {
    let v = octet_values(fields(s, '.'));
    if v.len() != 4 {
        24
    } else {
        popcount(v[0]) + popcount(v[1]) + popcount(v[2]) + popcount(v[3])
    }
}

/// How many of the eight bits of byte `k` (0 = most significant) a prefix of
/// length `c` covers.
pub open spec fn covered(c: nat, k: nat) -> nat {
    if c <= 8 * k {
        0
    } else if c >= 8 * k + 8 {
        8
    } else {
        (c - 8 * k) as nat
    }
}

/// The byte whose `b` highest bits are set and the others clear.
pub open spec fn high_bits(b: nat) -> u8 {
    if b == 0 { 0 }
    else if b == 1 { 128 }
    else if b == 2 { 192 }
    else if b == 3 { 224 }
    else if b == 4 { 240 }
    else if b == 5 { 248 }
    else if b == 6 { 252 }
    else if b == 7 { 254 }
    else { 255 }
}

/// Byte `k` of the 32-bit mask of prefix length `c` (all ones from 32 on).
pub open spec fn mask_octet(c: nat, k: nat) -> u8 {
    high_bits(covered(c, k))
}

/// Four numbers in dotted notation.
pub open spec fn dotted(a: nat, b: nat, c: nat, d: nat) -> Seq<char> {
    dec(a) + seq!['.'] + dec(b) + seq!['.'] + dec(c) + seq!['.'] + dec(d)
}

/// The dotted form of the mask of prefix length `c`.
pub open spec fn mask_text(c: nat) -> Seq<char> {
    dotted(
        mask_octet(c, 0) as nat,
        mask_octet(c, 1) as nat,
        mask_octet(c, 2) as nat,
        mask_octet(c, 3) as nat,
    )
}

/// The network address of `ip` under prefix length `c`; `ip` itself where it does not
/// hold exactly four bytes.
pub open spec fn network_text(ip: Seq<char>, c: nat) -> Seq<char> {
    let v = octet_values(fields(ip, '.'));
    if v.len() != 4 {
        ip
    } else {
        dotted(
            ((v[0] as u8) & mask_octet(c, 0)) as nat,
            ((v[1] as u8) & mask_octet(c, 1)) as nat,
            ((v[2] as u8) & mask_octet(c, 2)) as nat,
            ((v[3] as u8) & mask_octet(c, 3)) as nat,
        )
    }
}

/// Whether `ip` is a valid dotted-quad IPv4 literal.
pub fn is_valid_ipv4(ip: &Vec<char>) -> (r: bool)
    ensures
        r == valid_ipv4(ip@),
{
    let parts = split_char(ip, '.');
    if parts.len() != 4 {
        return false;
    }
    let mut i: usize = 0;
    while i < 4
        invariant
            i <= 4,
            parts@.len() == 4,
            views(parts@) == fields(ip@, '.'),
            forall|k: int| 0 <= k < i ==> octet_ok(#[trigger] fields(ip@, '.')[k]),
        decreases 4 - i,
    {
        assert(views(parts@)[i as int] == parts@[i as int]@);
        if parse_uint(&parts[i], 255).is_none() {
            return false;
        }
        i = i + 1;
    }
    true
}

/// The values of the byte pieces of `s`, as `octet_values(fields(s, '.'))`.
fn octets_of(s: &Vec<char>) -> (r: Vec<u8>)
    ensures
        r@.map_values(|x: u8| x as nat) == octet_values(fields(s@, '.')),
{
    let parts = split_char(s, '.');
    let mut r: Vec<u8> = Vec::new();
    let mut i: usize = 0;
    while i < parts.len()
        invariant
            i <= parts@.len(),
            views(parts@) == fields(s@, '.'),
            r@.map_values(|x: u8| x as nat) == octet_values(views(parts@).take(i as int)),
        decreases parts.len() - i,
    {
        let ghost pre = views(parts@).take(i as int);
        let ghost cur = views(parts@).take(i + 1);
        assert(cur.drop_last() =~= pre);
        assert(cur.last() == parts@[i as int]@);
        let ghost old_r = r@;
        match parse_uint(&parts[i], 255) {
            Some(v) => {
                r.push(v as u8);
                assert(r@.map_values(|x: u8| x as nat) =~= old_r.map_values(|x: u8| x as nat).push(v as nat));
            },
            None => {},
        }
        i = i + 1;
    }
    assert(views(parts@).take(parts@.len() as int) =~= views(parts@));
    r
}

fn popcount_u8(b: u8) -> (r: u8)
    ensures
        r as nat == popcount(b as nat),
        r <= 8,
{
    let mut x: u8 = b;
    let mut n: u8 = 0;
    let mut steps: u8 = 0;
    while x > 0
        invariant
            popcount(b as nat) == n + popcount(x as nat),
            n <= steps,
            steps <= 8,
            x < pow2_8(steps),
        decreases x,
    {
        n = n + x % 2;
        x = x / 2;
        steps = steps + 1;
    }
    n
}

spec fn pow2_8(k: u8) -> nat {
    if k == 0 { 256 } else if k == 1 { 128 } else if k == 2 { 64 } else if k == 3 { 32 } else if k == 4 { 16 }
    else if k == 5 { 8 } else if k == 6 { 4 } else if k == 7 { 2 } else { 1 }
}

/// Prefix length of a dotted-decimal mask (bit count of its four bytes).
pub fn mask_to_cidr(mask: &Vec<char>) -> (r: u8)
    ensures
        r as nat == mask_bits(mask@),
{
    let v = octets_of(mask);
    if v.len() != 4 {
        return 24;
    }
    assert(v@.map_values(|x: u8| x as nat)[0] == v@[0] as nat);
    assert(v@.map_values(|x: u8| x as nat)[1] == v@[1] as nat);
    assert(v@.map_values(|x: u8| x as nat)[2] == v@[2] as nat);
    assert(v@.map_values(|x: u8| x as nat)[3] == v@[3] as nat);
    popcount_u8(v[0]) + popcount_u8(v[1]) + popcount_u8(v[2]) + popcount_u8(v[3])
}

fn high_bits_exec(b: u8) -> (r: u8)
    ensures
        r == high_bits(b as nat),
{
    if b == 0 { 0 }
    else if b == 1 { 128 }
    else if b == 2 { 192 }
    else if b == 3 { 224 }
    else if b == 4 { 240 }
    else if b == 5 { 248 }
    else if b == 6 { 252 }
    else if b == 7 { 254 }
    else { 255 }
}

/// Byte `k` of the mask of prefix length `c`.
fn mask_octet_exec(c: u8, k: u8) -> (r: u8)
    requires
        k < 4,
    ensures
        r == mask_octet(c as nat, k as nat),
{
    let lo: u8 = 8 * k;
    let b: u8 = if c <= lo { 0 } else if c >= lo + 8 { 8 } else { c - lo };
    high_bits_exec(b)
}

/// Appends four numbers in dotted notation.
fn push_dotted(out: &mut String, a: u8, b: u8, c: u8, d: u8)
    ensures
        final(out)@ == old(out)@ + dotted(a as nat, b as nat, c as nat, d as nat),
{
    push_dec(out, a as u64);
    append_str(out, ".");
    push_dec(out, b as u64);
    append_str(out, ".");
    push_dec(out, c as u64);
    append_str(out, ".");
    push_dec(out, d as u64);
    proof {
        reveal_strlit(".");
    }
    assert(out@ =~= old(out)@ + dotted(a as nat, b as nat, c as nat, d as nat));
}

/// Dotted-decimal form of the mask of prefix length `cidr`.
pub fn cidr_to_mask(cidr: u8) -> (r: String)
    ensures
        r@ == mask_text(cidr as nat),
{
    let mut out = String::new();
    push_dotted(
        &mut out,
        mask_octet_exec(cidr, 0),
        mask_octet_exec(cidr, 1),
        mask_octet_exec(cidr, 2),
        mask_octet_exec(cidr, 3),
    );
    assert(out@ =~= mask_text(cidr as nat));
    out
}

/// The network address of `ip` under prefix length `cidr`.
pub fn calculate_network(ip: &Vec<char>, cidr: u8) -> (r: String)
    ensures
        r@ == network_text(ip@, cidr as nat),
{
    let v = octets_of(ip);
    if v.len() != 4 {
        return string_of(ip);
    }
    let ghost vs = v@.map_values(|x: u8| x as nat);
    assert(vs[0] as u8 == v@[0] && vs[1] as u8 == v@[1] && vs[2] as u8 == v@[2] && vs[3] as u8 == v@[3]);
    let mut out = String::new();
    push_dotted(
        &mut out,
        v[0] & mask_octet_exec(cidr, 0),
        v[1] & mask_octet_exec(cidr, 1),
        v[2] & mask_octet_exec(cidr, 2),
        v[3] & mask_octet_exec(cidr, 3),
    );
    assert(out@ =~= network_text(ip@, cidr as nat));
    out
}

} // verus!
