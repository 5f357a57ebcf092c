use vstd::prelude::*;

verus! {

/// The integer that a little-endian byte sequence denotes: the first byte
/// is the least significant.
pub open spec fn le_bytes_val(s: Seq<u8>) -> int
    decreases s.len(),
{
    if s.len() == 0 {
        0
    } else {
        s[0] + 256 * le_bytes_val(s.drop_first())
    }
}

/// 256 raised to the power `n`.
pub open spec fn pow256(n: nat) -> int
    decreases n,
{
    if n == 0 {
        1
    } else {
        256 * pow256((n - 1) as nat)
    }
}

pub proof fn lemma_pow256_pos(n: nat)
    ensures
        pow256(n) >= 1,
    decreases n,
{
    if n > 0 {
        lemma_pow256_pos((n - 1) as nat);
    }
}

pub proof fn lemma_pow256_increases(m: nat, n: nat)
    requires
        m <= n,
    ensures
        pow256(m) <= pow256(n),
    decreases n,
{
    if m < n {
        lemma_pow256_increases(m, (n - 1) as nat);
        lemma_pow256_pos((n - 1) as nat);
    }
}

/// The eight little-endian bytes of a 64-bit value: byte `i` holds the
/// `i`-th base-256 digit.
pub open spec fn u64_le_seq(x: u64) -> Seq<u8> {
    Seq::new(8, |i: int| (((x as int) / pow256(i as nat)) % 256) as u8)
}

/// The eight little-endian bytes of `x`, least significant first.
pub fn u64_le_bytes(x: u64) -> (r: Vec<u8>)
    ensures
        r@ == u64_le_seq(x),
{
    let mut r: Vec<u8> = Vec::new();
    let mut cur: u64 = x;
    let mut i: usize = 0;
    while i < 8
        invariant
            i <= 8,
            r@.len() == i,
            cur == (x as int) / pow256(i as nat),
            forall|j: int| 0 <= j < i ==> r@[j] == (((x as int) / pow256(j as nat)) % 256) as u8,
        decreases 8 - i,
    {
        let b: u8 = (cur % 256) as u8;
        r.push(b);
        proof {
            lemma_pow256_pos(i as nat);
            vstd::arithmetic::div_mod::lemma_div_denominator(x as int, pow256(i as nat), 256);
            assert(pow256((i + 1) as nat) == 256 * pow256(i as nat));
        }
        cur = cur / 256;
        i = i + 1;
    }
    proof {
        assert(r@ =~= u64_le_seq(x));
    }
    r
}

/// The value of the first eight bytes of `bytes`, read little-endian.
pub fn le_u64_of_prefix(bytes: &Vec<u8>) -> (r: u64)
    requires
        bytes@.len() >= 8,
    ensures
        r == le_bytes_val(bytes@.subrange(0, 8)),
{
    let mut acc: u64 = 0;
    let mut j: usize = 8;
    while j > 0
        invariant
            j <= 8,
            bytes@.len() >= 8,
            acc == le_bytes_val(bytes@.subrange(j as int, 8)),
            acc < pow256((8 - j) as nat),
        decreases j,
    {
        j = j - 1;
        let b: u8 = bytes[j];
        proof {
            assert(bytes@.subrange(j as int, 8).drop_first() =~= bytes@.subrange(j as int + 1, 8));
            lemma_pow256_increases((7 - j) as nat, 7);
            assert(pow256(7) == 0x100000000000000) by {
                assert(pow256(0) == 1);
                assert(pow256(1) == 256);
                assert(pow256(2) == 0x10000);
                assert(pow256(3) == 0x1000000);
                assert(pow256(4) == 0x100000000);
                assert(pow256(5) == 0x10000000000);
                assert(pow256(6) == 0x1000000000000);
            }
            assert(pow256((8 - j) as nat) == 256 * pow256((7 - j) as nat));
        }
        acc = acc * 256 + (b as u64);
    }
    acc
}

/// A fresh vector holding the same bytes as `v`.
pub fn clone_bytes(v: &Vec<u8>) -> (r: Vec<u8>)
    ensures
        r@ == v@,
{
    let mut r: Vec<u8> = Vec::new();
    let mut i: usize = 0;
    while i < v.len()
        invariant
            i <= v@.len(),
            r@.len() == i,
            forall|j: int| 0 <= j < i ==> r@[j] == v@[j],
        decreases v@.len() - i,
    {
        r.push(v[i]);
        i = i + 1;
    }
    proof {
        assert(r@ =~= v@);
    }
    r
}

/// Whether two byte vectors hold the same bytes.
pub fn bytes_eq(a: &Vec<u8>, b: &Vec<u8>) -> (r: bool)
    ensures
        r == (a@ == b@),
{
    if a.len() != b.len() {
        return false;
    }
    let mut i: usize = 0;
    while i < a.len()
        invariant
            i <= a@.len(),
            a@.len() == b@.len(),
            forall|j: int| 0 <= j < i ==> a@[j] == b@[j],
        decreases a@.len() - i,
    {
        if a[i] != b[i] {
            return false;
        }
        i = i + 1;
    }
    proof {
        assert(a@ =~= b@);
    }
    true
}

} // verus!
