//! Big-endian byte strings and the unsigned integers they denote.

use vstd::prelude::*;

verus! {

/// The unsigned integer that a big-endian byte string denotes.
pub open spec fn bytes_value(s: Seq<u8>) -> nat
    decreases s.len(),
{
    if s.len() == 0 {
        0
    } else {
        bytes_value(s.drop_last()) * 256 + s.last() as nat
    }
}

/// Appending a byte multiplies the denoted value by 256 and adds the byte.
pub proof fn lemma_bytes_value_push(s: Seq<u8>, b: u8)
    ensures
        bytes_value(s.push(b)) == bytes_value(s) * 256 + b,
{
    assert(s.push(b).drop_last() =~= s);
}

/// A non-empty byte string denotes at least its last byte.
pub proof fn lemma_bytes_value_last(s: Seq<u8>)
    requires
        s.len() > 0,
    ensures
        bytes_value(s) >= s.last(),
{
}

/// True when every byte of the string is zero.
pub open spec fn all_zero(s: Seq<u8>) -> bool {
    forall|i: int| 0 <= i < s.len() ==> s[i] == 0
}

/// Reports whether every byte of `v` is zero.
pub fn is_all_zero(v: &Vec<u8>) -> (r: bool)
    ensures
        r == all_zero(v@),
{
    let mut i: usize = 0;
    while i < v.len()
        invariant
            i <= v.len(),
            forall|j: int| 0 <= j < i ==> v@[j] == 0,
        decreases v@.len() - i,
    {
        if v[i] != 0 {
            return false;
        }
        i += 1;
    }
    true
}

/// Copies the byte range `[start, end)` of `v` into a fresh vector.
pub fn sub_vec(v: &Vec<u8>, start: usize, end: usize) -> (r: Vec<u8>)
    requires
        start <= end,
        end <= v.len(),
    ensures
        r@ == v@.subrange(start as int, end as int),
{
    let mut r: Vec<u8> = Vec::new();
    let mut i: usize = start;
    while i < end
        invariant
            start <= i <= end <= v.len(),
            r@.len() == i - start,
            forall|j: int| 0 <= j < r@.len() ==> r@[j] == v@[start + j],
        decreases end - i,
    {
        r.push(v[i]);
        i += 1;
    }
    proof {
        assert(r@ =~= v@.subrange(start as int, end as int));
    }
    r
}

/// Copies a whole byte vector.
pub fn copy_bytes(v: &Vec<u8>) -> (r: Vec<u8>)
    ensures
        r@ == v@,
{
    let r = sub_vec(v, 0, v.len());
    proof {
        assert(v@.subrange(0, v@.len() as int) =~= v@);
    }
    r
}

/// Appends the bytes of `src` to `dst`.
pub fn append_bytes(dst: &mut Vec<u8>, src: &Vec<u8>)
    ensures
        final(dst)@ == old(dst)@ + src@,
{
    let mut i: usize = 0;
    while i < src.len()
        invariant
            i <= src.len(),
            dst@.len() == old(dst)@.len() + i,
            forall|j: int| 0 <= j < old(dst)@.len() ==> dst@[j] == old(dst)@[j],
            forall|j: int| 0 <= j < i ==> dst@[old(dst)@.len() + j] == src@[j],
        decreases src@.len() - i,
    {
        dst.push(src[i]);
        i += 1;
    }
    proof {
        assert(dst@ =~= old(dst)@ + src@);
    }
}

/// Pushes one byte, tracking the denoted value.
pub fn push_byte(v: &mut Vec<u8>, b: u8)
    ensures
        final(v)@ == old(v)@.push(b),
        bytes_value(final(v)@) == bytes_value(old(v)@) * 256 + b,
{
    proof {
        lemma_bytes_value_push(v@, b);
    }
    v.push(b);
}

/// The eight big-endian bytes of a 64-bit integer.
pub open spec fn spec_u64_be_bytes(x: u64) -> Seq<u8> {
    seq![
        ((x as nat / 0x100000000000000) % 256) as u8,
        ((x as nat / 0x1000000000000) % 256) as u8,
        ((x as nat / 0x10000000000) % 256) as u8,
        ((x as nat / 0x100000000) % 256) as u8,
        ((x as nat / 0x1000000) % 256) as u8,
        ((x as nat / 0x10000) % 256) as u8,
        ((x as nat / 0x100) % 256) as u8,
        (x as nat % 256) as u8,
    ]
}

/// Encodes a 64-bit integer as its eight big-endian bytes.
pub fn u64_be_bytes(x: u64) -> (r: Vec<u8>)
    ensures
        r@ == spec_u64_be_bytes(x),
        r@.len() == 8,
        bytes_value(r@) == x,
{
    let q1: u64 = x / 256;
    let q2: u64 = q1 / 256;
    let q3: u64 = q2 / 256;
    let q4: u64 = q3 / 256;
    let q5: u64 = q4 / 256;
    let q6: u64 = q5 / 256;
    let q7: u64 = q6 / 256;
    proof {
        vstd::arithmetic::div_mod::lemma_div_denominator(x as int, 0x100, 0x100);
        vstd::arithmetic::div_mod::lemma_div_denominator(x as int, 0x10000, 0x100);
        vstd::arithmetic::div_mod::lemma_div_denominator(x as int, 0x1000000, 0x100);
        vstd::arithmetic::div_mod::lemma_div_denominator(x as int, 0x100000000, 0x100);
        vstd::arithmetic::div_mod::lemma_div_denominator(x as int, 0x10000000000, 0x100);
        vstd::arithmetic::div_mod::lemma_div_denominator(x as int, 0x1000000000000, 0x100);
        vstd::arithmetic::div_mod::lemma_fundamental_div_mod(x as int, 0x100);
        vstd::arithmetic::div_mod::lemma_fundamental_div_mod(q1 as int, 0x100);
        vstd::arithmetic::div_mod::lemma_fundamental_div_mod(q2 as int, 0x100);
        vstd::arithmetic::div_mod::lemma_fundamental_div_mod(q3 as int, 0x100);
        vstd::arithmetic::div_mod::lemma_fundamental_div_mod(q4 as int, 0x100);
        vstd::arithmetic::div_mod::lemma_fundamental_div_mod(q5 as int, 0x100);
        vstd::arithmetic::div_mod::lemma_fundamental_div_mod(q6 as int, 0x100);
        assert(q7 < 256);
    }
    let mut r: Vec<u8> = Vec::new();
    push_byte(&mut r, (q7 % 256) as u8);
    push_byte(&mut r, (q6 % 256) as u8);
    push_byte(&mut r, (q5 % 256) as u8);
    push_byte(&mut r, (q4 % 256) as u8);
    push_byte(&mut r, (q3 % 256) as u8);
    push_byte(&mut r, (q2 % 256) as u8);
    push_byte(&mut r, (q1 % 256) as u8);
    push_byte(&mut r, (x % 256) as u8);
    proof {
        assert(r@ =~= spec_u64_be_bytes(x));
    }
    r
}

} // verus!
