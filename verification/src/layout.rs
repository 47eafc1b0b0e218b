//! Byte layout of the values exchanged with the kernel.
//!
//! The kernel interface is defined in terms of C structures. Every value that
//! crosses it is described here by the exact sequence of bytes it occupies:
//! fields in declaration order, each integer little-endian, padding written out.

use vstd::array::{
    array_fill_for_copy_types, group_array_axioms, spec_array_fill_for_copy_type, spec_array_update,
};
use vstd::prelude::*;

verus! {

/// A run of `n` zero bytes.
pub open spec fn zeros(n: nat) -> Seq<u8> {
    Seq::new(n, |i: int| 0u8)
}

/// The two bytes of `x`, least significant first.
#[verifier::opaque]
pub open spec fn u16_le(x: u16) -> Seq<u8> {
    seq![(x % 256) as u8, (x / 256) as u8]
}

/// The number whose little-endian bytes are the two of `s` from `at` on.
#[verifier::opaque]
pub open spec fn u16_at(s: Seq<u8>, at: int) -> u16 {
    (s[at] + 256 * s[at + 1]) as u16
}

/// The four bytes of `x`, least significant first.
#[verifier::opaque]
pub open spec fn u32_le(x: u32) -> Seq<u8> {
    seq![
        (x % 256) as u8,
        (x / 0x100 % 256) as u8,
        (x / 0x1_0000 % 256) as u8,
        (x / 0x100_0000) as u8,
    ]
}

/// The number whose little-endian bytes are the four of `s` from `at` on.
#[verifier::opaque]
pub open spec fn u32_at(s: Seq<u8>, at: int) -> u32 {
    (s[at] + 0x100 * s[at + 1] + 0x1_0000 * s[at + 2] + 0x100_0000 * s[at + 3]) as u32
}

/// The eight bytes of `x`, least significant first.
#[verifier::opaque]
pub open spec fn u64_le(x: u64) -> Seq<u8> {
    seq![
        (x % 256) as u8,
        (x / 0x100 % 256) as u8,
        (x / 0x1_0000 % 256) as u8,
        (x / 0x100_0000 % 256) as u8,
        (x / 0x1_0000_0000 % 256) as u8,
        (x / 0x100_0000_0000 % 256) as u8,
        (x / 0x1_0000_0000_0000 % 256) as u8,
        (x / 0x100_0000_0000_0000) as u8,
    ]
}

/// The number whose little-endian bytes are the eight of `s` from `at` on.
#[verifier::opaque]
pub open spec fn u64_at(s: Seq<u8>, at: int) -> u64 {
    (s[at] + 0x100 * s[at + 1] + 0x1_0000 * s[at + 2] + 0x100_0000 * s[at + 3] + 0x1_0000_0000 * s[at
        + 4] + 0x100_0000_0000 * s[at + 5] + 0x1_0000_0000_0000 * s[at + 6] + 0x100_0000_0000_0000
        * s[at + 7]) as u64
}

proof fn lemma_u16_split(x: u16)
    by (bit_vector)
    ensures
        x % 256 < 256,
        x / 256 < 256,
        (x % 256) + 256 * (x / 256) == x,
{
}

proof fn lemma_u16_join(b0: u8, b1: u8)
    by (bit_vector)
    ensures
        b0 as u16 + 256 * (b1 as u16) < 0x1_0000,
        (b0 as u16 + 256 * (b1 as u16)) % 256 == b0,
        (b0 as u16 + 256 * (b1 as u16)) / 256 == b1,
{
}

proof fn lemma_u32_split(x: u32)
    by (bit_vector)
    ensures
        x / 0x100_0000 < 256,
        (x % 256) + 0x100 * (x / 0x100 % 256) + 0x1_0000 * (x / 0x1_0000 % 256) + 0x100_0000 * (x
            / 0x100_0000) == x,
{
}

proof fn lemma_u32_join(b0: u8, b1: u8, b2: u8, b3: u8)
    by (bit_vector)
    ensures
        ({
            let v = b0 as u32 + 0x100 * (b1 as u32) + 0x1_0000 * (b2 as u32) + 0x100_0000 * (b3 as u32);
            &&& b0 as u64 + 0x100 * (b1 as u64) + 0x1_0000 * (b2 as u64) + 0x100_0000 * (b3 as u64)
                < 0x1_0000_0000
            &&& v % 256 == b0
            &&& v / 0x100 % 256 == b1
            &&& v / 0x1_0000 % 256 == b2
            &&& v / 0x100_0000 == b3
        }),
{
}

proof fn lemma_u64_split(x: u64)
    by (bit_vector)
    ensures
        x / 0x100_0000_0000_0000 < 256,
        (x % 256) + 0x100 * (x / 0x100 % 256) + 0x1_0000 * (x / 0x1_0000 % 256) + 0x100_0000 * (x
            / 0x100_0000 % 256) + 0x1_0000_0000 * (x / 0x1_0000_0000 % 256) + 0x100_0000_0000 * (x
            / 0x100_0000_0000 % 256) + 0x1_0000_0000_0000 * (x / 0x1_0000_0000_0000 % 256)
            + 0x100_0000_0000_0000 * (x / 0x100_0000_0000_0000) == x,
{
}

proof fn lemma_u64_join(b0: u8, b1: u8, b2: u8, b3: u8, b4: u8, b5: u8, b6: u8, b7: u8)
    by (bit_vector)
    ensures
        ({
            let v = b0 as u64 + 0x100 * (b1 as u64) + 0x1_0000 * (b2 as u64) + 0x100_0000 * (b3 as u64)
                + 0x1_0000_0000 * (b4 as u64) + 0x100_0000_0000 * (b5 as u64) + 0x1_0000_0000_0000 * (
            b6 as u64) + 0x100_0000_0000_0000 * (b7 as u64);
            &&& b0 as u128 + 0x100 * (b1 as u128) + 0x1_0000 * (b2 as u128) + 0x100_0000 * (b3 as u128)
                + 0x1_0000_0000 * (b4 as u128) + 0x100_0000_0000 * (b5 as u128) + 0x1_0000_0000_0000
                * (b6 as u128) + 0x100_0000_0000_0000 * (b7 as u128) < 0x1_0000_0000_0000_0000
            &&& v % 256 == b0
            &&& v / 0x100 % 256 == b1
            &&& v / 0x1_0000 % 256 == b2
            &&& v / 0x100_0000 % 256 == b3
            &&& v / 0x1_0000_0000 % 256 == b4
            &&& v / 0x100_0000_0000 % 256 == b5
            &&& v / 0x1_0000_0000_0000 % 256 == b6
            &&& v / 0x100_0000_0000_0000 == b7
        }),
{
}

/// Two bytes and a `u16` are the same thing: reading back what was written
/// gives the number, and writing what was read gives the bytes.
pub proof fn lemma_u16_le(x: u16, s: Seq<u8>)
    ensures
        u16_le(x).len() == 2,
        u16_at(u16_le(x), 0) == x,
        s.len() == 2 ==> u16_le(u16_at(s, 0)) == s,
        u16_le(0) == zeros(2),
{
    reveal(u16_le);
    reveal(u16_at);
    lemma_u16_split(x);
    if s.len() == 2 {
        lemma_u16_join(s[0], s[1]);
        assert(u16_le(u16_at(s, 0)) =~= s);
    }
    assert(u16_le(0) =~= zeros(2));
}

/// Four bytes and a `u32` are the same thing.
pub proof fn lemma_u32_le(x: u32, s: Seq<u8>)
    ensures
        u32_le(x).len() == 4,
        u32_at(u32_le(x), 0) == x,
        s.len() == 4 ==> u32_le(u32_at(s, 0)) == s,
        u32_le(0) == zeros(4),
{
    reveal(u32_le);
    reveal(u32_at);
    lemma_u32_split(x);
    if s.len() == 4 {
        lemma_u32_join(s[0], s[1], s[2], s[3]);
        assert(u32_le(u32_at(s, 0)) =~= s);
    }
    assert(u32_le(0) =~= zeros(4));
}

/// Eight bytes and a `u64` are the same thing.
pub proof fn lemma_u64_le(x: u64, s: Seq<u8>)
    ensures
        u64_le(x).len() == 8,
        u64_at(u64_le(x), 0) == x,
        s.len() == 8 ==> u64_le(u64_at(s, 0)) == s,
        u64_le(0) == zeros(8),
{
    reveal(u64_le);
    reveal(u64_at);
    lemma_u64_split(x);
    if s.len() == 8 {
        lemma_u64_join(s[0], s[1], s[2], s[3], s[4], s[5], s[6], s[7]);
        assert(u64_le(u64_at(s, 0)) =~= s);
    }
    assert(u64_le(0) =~= zeros(8));
}

/// What lies in front of an appended part is not changed by it.
pub proof fn lemma_append_keeps(front: Seq<u8>, part: Seq<u8>)
    ensures
        (front + part).len() == front.len() + part.len(),
        (front + part).subrange(front.len() as int, (front.len() + part.len()) as int) == part,
        forall|from: int, to: int|
            0 <= from <= to <= front.len() ==> #[trigger] (front + part).subrange(from, to)
                == front.subrange(from, to),
{
    assert((front + part).subrange(front.len() as int, (front.len() + part.len()) as int) =~= part);
    assert forall|from: int, to: int| 0 <= from <= to <= front.len() implies #[trigger] (front
        + part).subrange(from, to) == front.subrange(from, to) by {
        assert((front + part).subrange(from, to) =~= front.subrange(from, to));
    }
}

/// Appending in two steps is appending the two parts joined.
pub proof fn lemma_append_twice(front: Seq<u8>, first: Seq<u8>, second: Seq<u8>)
    ensures
        (front + first) + second == front + (first + second),
{
    assert((front + first) + second =~= front + (first + second));
}

/// Two neighbouring parts of a sequence, joined, are the part that spans both.
pub proof fn lemma_subrange_join(s: Seq<u8>, from: int, mid: int, to: int)
    requires
        0 <= from <= mid <= to <= s.len(),
    ensures
        s.subrange(from, mid) + s.subrange(mid, to) == s.subrange(from, to),
        s.subrange(0, s.len() as int) == s,
{
    assert(s.subrange(from, mid) + s.subrange(mid, to) =~= s.subrange(from, to));
    assert(s.subrange(0, s.len() as int) =~= s);
}

/// A part of a part is a part of the whole.
pub proof fn lemma_subrange_within(s: Seq<u8>, from: int, to: int, inner_from: int, inner_to: int)
    requires
        0 <= from <= to <= s.len(),
        0 <= inner_from <= inner_to <= to - from,
    ensures
        s.subrange(from, to).subrange(inner_from, inner_to) == s.subrange(
            from + inner_from,
            from + inner_to,
        ),
{
    assert(s.subrange(from, to).subrange(inner_from, inner_to) =~= s.subrange(
        from + inner_from,
        from + inner_to,
    ));
}

/// Zero bytes after zero bytes are zero bytes.
pub proof fn lemma_zeros_join(a: nat, b: nat)
    ensures
        zeros(a) + zeros(b) == zeros(a + b),
        zeros(a).len() == a,
{
    assert(zeros(a) + zeros(b) =~= zeros(a + b));
}

/// A single byte read back.
pub proof fn lemma_u8_le(x: u8, s: Seq<u8>)
    ensures
        seq![x].len() == 1,
        seq![x][0] == x,
        s.len() == 1 ==> seq![s[0]] == s,
        seq![0u8] == zeros(1),
{
    if s.len() == 1 {
        assert(seq![s[0]] =~= s);
    }
    assert(seq![0u8] =~= zeros(1));
}

/// Reading inside a part of a sequence is reading at the same place of the whole.
pub proof fn lemma_read_within(s: Seq<u8>, from: int, to: int)
    requires
        0 <= from <= to <= s.len(),
    ensures
        forall|at: int|
            0 <= at && at + 2 <= to - from ==> #[trigger] u16_at(s.subrange(from, to), at) == u16_at(
                s,
                from + at,
            ),
        forall|at: int|
            0 <= at && at + 4 <= to - from ==> #[trigger] u32_at(s.subrange(from, to), at) == u32_at(
                s,
                from + at,
            ),
        forall|at: int|
            0 <= at && at + 8 <= to - from ==> #[trigger] u64_at(s.subrange(from, to), at) == u64_at(
                s,
                from + at,
            ),
{
    reveal(u16_at);
    reveal(u32_at);
    reveal(u64_at);
}

/// Appends one byte.
pub fn put_u8(out: &mut Vec<u8>, x: u8)
    ensures
        final(out)@ == old(out)@ + seq![x],
{
    out.push(x);
    assert(out@ =~= old(out)@ + seq![x]);
}

/// Appends the two bytes of `x`.
pub fn put_u16(out: &mut Vec<u8>, x: u16)
    ensures
        final(out)@ == old(out)@ + u16_le(x),
{
    reveal(u16_le);
    out.push((x % 256) as u8);
    out.push((x / 256) as u8);
    assert(out@ =~= old(out)@ + u16_le(x));
}

/// Appends the four bytes of `x`.
pub fn put_u32(out: &mut Vec<u8>, x: u32)
    ensures
        final(out)@ == old(out)@ + u32_le(x),
{
    reveal(u32_le);
    out.push((x % 256) as u8);
    out.push((x / 0x100 % 256) as u8);
    out.push((x / 0x1_0000 % 256) as u8);
    out.push((x / 0x100_0000) as u8);
    assert(out@ =~= old(out)@ + u32_le(x));
}

/// Appends the eight bytes of `x`.
pub fn put_u64(out: &mut Vec<u8>, x: u64)
    ensures
        final(out)@ == old(out)@ + u64_le(x),
{
    reveal(u64_le);
    out.push((x % 256) as u8);
    out.push((x / 0x100 % 256) as u8);
    out.push((x / 0x1_0000 % 256) as u8);
    out.push((x / 0x100_0000 % 256) as u8);
    out.push((x / 0x1_0000_0000 % 256) as u8);
    out.push((x / 0x100_0000_0000 % 256) as u8);
    out.push((x / 0x1_0000_0000_0000 % 256) as u8);
    out.push((x / 0x100_0000_0000_0000) as u8);
    assert(out@ =~= old(out)@ + u64_le(x));
}

/// Appends `n` zero bytes.
pub fn put_zeros(out: &mut Vec<u8>, n: usize)
    ensures
        final(out)@ == old(out)@ + zeros(n as nat),
{
    let mut i: usize = 0;
    while i < n
        invariant
            i <= n,
            out@ == old(out)@ + zeros(i as nat),
        decreases n - i,
    {
        out.push(0u8);
        i = i + 1;
        assert(out@ =~= old(out)@ + zeros(i as nat));
    }
}

/// The byte at `at`.
pub fn get_u8(bytes: &[u8], at: usize) -> (x: u8)
    requires
        at < bytes.len(),
    ensures
        x == bytes@[at as int],
{
    bytes[at]
}

/// The `u16` held by the two bytes from `at` on.
pub fn get_u16(bytes: &[u8], at: usize) -> (x: u16)
    requires
        at + 2 <= bytes.len(),
    ensures
        x == u16_at(bytes@, at as int),
{
    reveal(u16_at);
    let b0: u16 = bytes[at] as u16;
    let b1: u16 = bytes[at + 1] as u16;
    b0 + 256 * b1
}

/// The `u32` held by the four bytes from `at` on.
pub fn get_u32(bytes: &[u8], at: usize) -> (x: u32)
    requires
        at + 4 <= bytes.len(),
    ensures
        x == u32_at(bytes@, at as int),
{
    reveal(u32_at);
    let b0: u32 = bytes[at] as u32;
    let b1: u32 = bytes[at + 1] as u32;
    let b2: u32 = bytes[at + 2] as u32;
    let b3: u32 = bytes[at + 3] as u32;
    b0 + 0x100 * b1 + 0x1_0000 * b2 + 0x100_0000 * b3
}

/// The `u64` held by the eight bytes from `at` on.
pub fn get_u64(bytes: &[u8], at: usize) -> (x: u64)
    requires
        at + 8 <= bytes.len(),
    ensures
        x == u64_at(bytes@, at as int),
{
    reveal(u64_at);
    let b0: u64 = bytes[at] as u64;
    let b1: u64 = bytes[at + 1] as u64;
    let b2: u64 = bytes[at + 2] as u64;
    let b3: u64 = bytes[at + 3] as u64;
    let b4: u64 = bytes[at + 4] as u64;
    let b5: u64 = bytes[at + 5] as u64;
    let b6: u64 = bytes[at + 6] as u64;
    let b7: u64 = bytes[at + 7] as u64;
    b0 + 0x100 * b1 + 0x1_0000 * b2 + 0x100_0000 * b3 + 0x1_0000_0000 * b4 + 0x100_0000_0000 * b5
        + 0x1_0000_0000_0000 * b6 + 0x100_0000_0000_0000 * b7
}

/// The array that holds the first `n` bytes of `s` and zero behind them.
pub open spec fn array_of_upto<const N: usize>(s: Seq<u8>, n: nat) -> [u8; N]
    decreases n,
{
    if n == 0 {
        spec_array_fill_for_copy_type::<u8, N>(0u8)
    } else {
        spec_array_update(array_of_upto::<N>(s, (n - 1) as nat), n - 1, s[n - 1])
    }
}

/// The array that holds the first `N` bytes of `s`.
pub open spec fn array_of<const N: usize>(s: Seq<u8>) -> [u8; N] {
    array_of_upto::<N>(s, N as nat)
}

proof fn lemma_array_of_upto<const N: usize>(s: Seq<u8>, n: nat)
    requires
        n <= N <= s.len(),
    ensures
        array_of_upto::<N>(s, n)@.len() == N,
        forall|i: int| 0 <= i < n ==> array_of_upto::<N>(s, n)@[i] == s[i],
    decreases n,
{
    broadcast use group_array_axioms;

    if n > 0 {
        lemma_array_of_upto::<N>(s, (n - 1) as nat);
    }
}

/// The array made of a sequence holds the bytes of the sequence.
pub proof fn lemma_array_of<const N: usize>(s: Seq<u8>)
    requires
        N <= s.len(),
    ensures
        array_of::<N>(s)@ == s.subrange(0, N as int),
{
    broadcast use group_array_axioms;

    lemma_array_of_upto::<N>(s, N as nat);
    assert(array_of::<N>(s)@ =~= s.subrange(0, N as int));
}

/// The array made of the bytes of an array is that array.
pub proof fn lemma_array_of_view<const N: usize>(a: [u8; N])
    ensures
        array_of::<N>(a@) == a,
{
    broadcast use group_array_axioms;

    lemma_array_of_upto::<N>(a@, N as nat);
    assert(array_of::<N>(a@)@ =~= a@);
    assert(array_of::<N>(a@) =~= a);
}

/// Appends the bytes of `src`.
pub fn put_bytes(out: &mut Vec<u8>, src: &[u8])
    ensures
        final(out)@ == old(out)@ + src@,
{
    let mut i: usize = 0;
    while i < src.len()
        invariant
            i <= src.len(),
            out@ == old(out)@ + src@.take(i as int),
        decreases src.len() - i,
    {
        out.push(src[i]);
        i = i + 1;
        assert(out@ =~= old(out)@ + src@.take(i as int));
    }
    assert(src@.take(src.len() as int) =~= src@);
}

/// The `N` bytes from `at` on, as an array.
pub fn get_bytes<const N: usize>(bytes: &[u8], at: usize) -> (r: [u8; N])
    requires
        at + N <= bytes.len(),
    ensures
        r@ == bytes@.subrange(at as int, at + N),
        r == array_of::<N>(bytes@.subrange(at as int, at + N)),
{
    let mut r: [u8; N] = array_fill_for_copy_types(0u8);
    let mut i: usize = 0;
    while i < N
        invariant
            i <= N,
            at + N <= bytes.len(),
            forall|j: int| 0 <= j < i ==> r@[j] == bytes@[at + j],
        decreases N - i,
    {
        r[i] = bytes[at + i];
        i = i + 1;
    }
    assert(r@ =~= bytes@.subrange(at as int, at + N));
    proof {
        lemma_array_of_view::<N>(r);
    }
    r
}

/// A value that the kernel reads and writes as a fixed number of bytes.
pub trait Layout: Sized {
    /// How many bytes a value takes.
    spec fn spec_size() -> nat;

    /// The bytes of a value.
    spec fn encode(&self) -> Seq<u8>;

    /// The value that the first `spec_size()` of `bytes` hold.
    spec fn decode(bytes: Seq<u8>) -> Self;

    /// The value all of whose fields are zero.
    spec fn zeroed() -> Self;

    /// A value takes at least one byte.
    proof fn lemma_size()
        ensures
            Self::spec_size() > 0,
    ;

    /// A value's bytes are as many as its size, and hold that value.
    proof fn lemma_encode(v: Self)
        ensures
            v.encode().len() == Self::spec_size(),
            Self::decode(v.encode()) == v,
    ;

    /// Any bytes of the right number are the bytes of the value they hold:
    /// no byte of the layout is left out of the value.
    proof fn lemma_decode(bytes: Seq<u8>)
        requires
            bytes.len() == Self::spec_size(),
        ensures
            Self::decode(bytes).encode() == bytes,
    ;

    /// The all-zero value is written as zero bytes.
    proof fn lemma_zeroed()
        ensures
            Self::zeroed().encode() == zeros(Self::spec_size()),
    ;

    /// How many bytes a value takes.
    fn size() -> (n: usize)
        ensures
            n == Self::spec_size(),
    ;

    /// Appends the bytes of the value to `out`.
    fn put(&self, out: &mut Vec<u8>)
        ensures
            final(out)@ == old(out)@ + self.encode(),
    ;

    /// Reads the value that starts at `at`.
    fn get(bytes: &[u8], at: usize) -> (v: Self)
        requires
            at + Self::spec_size() <= bytes.len(),
        ensures
            v == Self::decode(bytes@.subrange(at as int, at + Self::spec_size())),
    ;
}

impl Layout for u32 {
    open spec fn spec_size() -> nat {
        4
    }

    open spec fn encode(&self) -> Seq<u8> {
        u32_le(*self)
    }

    open spec fn decode(bytes: Seq<u8>) -> Self {
        u32_at(bytes, 0)
    }

    open spec fn zeroed() -> Self {
        0
    }

    proof fn lemma_size() {
    }

    proof fn lemma_encode(v: Self) {
        lemma_u32_le(v, Seq::empty());
    }

    proof fn lemma_decode(bytes: Seq<u8>) {
        lemma_u32_le(0, bytes);
    }

    proof fn lemma_zeroed() {
        lemma_u32_le(0, Seq::empty());
    }

    fn size() -> usize {
        4
    }

    fn put(&self, out: &mut Vec<u8>) {
        put_u32(out, *self);
    }

    fn get(bytes: &[u8], at: usize) -> Self {
        proof {
            lemma_read_within(bytes@, at as int, at + 4);
        }
        get_u32(bytes, at)
    }
}

/// The bytes of a value, as a buffer of its own.
pub fn to_bytes<T: Layout>(v: &T) -> (bytes: Vec<u8>)
    ensures
        bytes@ == v.encode(),
{
    let mut out: Vec<u8> = Vec::new();
    v.put(&mut out);
    assert(out@ =~= v.encode());
    out
}

/// The value held by a buffer of exactly the type's size; `None` for any other length.
pub fn from_bytes<T: Layout>(bytes: &[u8]) -> (v: Option<T>)
    ensures
        bytes@.len() == T::spec_size() ==> v == Some(T::decode(bytes@)),
        bytes@.len() != T::spec_size() ==> v is None,
{
    if bytes.len() == T::size() {
        let v = T::get(bytes, 0);
        assert(bytes@.subrange(0, T::spec_size() as int) =~= bytes@);
        Some(v)
    } else {
        None
    }
}

} // verus!
