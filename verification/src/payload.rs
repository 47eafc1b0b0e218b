//! Payloads with a variable number of entries.
//!
//! Several KVM requests take a header that starts with a 32-bit count and is
//! followed, in the same buffer, by that many entries of one fixed size. This
//! module writes and reads such buffers for any entry type with a [`Layout`].

use crate::error::Error;
use crate::layout::{get_u32, lemma_u32_le, put_u32, put_zeros, u32_at, u32_le, zeros, Layout};
use vstd::prelude::*;

verus! {

/// The bytes of the entries, one entry after another.
pub open spec fn encode_all<T: Layout>(entries: Seq<T>) -> Seq<u8>
    decreases entries.len(),
{
    if entries.len() == 0 {
        Seq::empty()
    } else {
        encode_all(entries.drop_last()) + entries.last().encode()
    }
}

/// The payload that carries `entries`: their number, the rest of a header of
/// `header` bytes left zero, then the entries.
pub open spec fn payload<T: Layout>(header: nat, entries: Seq<T>) -> Seq<u8> {
    u32_le(entries.len() as u32) + zeros((header - 4) as nat) + encode_all(entries)
}

/// The number of entries that the header of a payload declares.
pub open spec fn declared_count(bytes: Seq<u8>) -> u32 {
    u32_at(bytes, 0)
}

/// The number of whole entries that a buffer has room for behind its header.
pub open spec fn capacity<T: Layout>(header: nat, bytes: Seq<u8>) -> nat {
    ((bytes.len() - header) / (T::spec_size() as int)) as nat
}

/// The entry in place `k` behind the header.
pub open spec fn entry_at<T: Layout>(header: nat, bytes: Seq<u8>, k: int) -> T {
    T::decode(bytes.subrange(header + k * T::spec_size(), header + (k + 1) * T::spec_size()))
}

/// What a buffer holds when read as a payload: the declared number of entries
/// in order, or the reason why it cannot be read. A count that the buffer has
/// no room for is an error, never a reason to read on.
pub open spec fn entries_of<T: Layout>(header: nat, bytes: Seq<u8>) -> Result<Seq<T>, Error> {
    if bytes.len() < header {
        Err(Error::BufferLength { expected: header as usize, actual: bytes.len() as usize })
    } else if declared_count(bytes) > capacity::<T>(header, bytes) {
        Err(
            Error::CountExceedsCapacity {
                count: declared_count(bytes),
                capacity: capacity::<T>(header, bytes) as usize,
            },
        )
    } else {
        Ok(Seq::new(declared_count(bytes) as nat, |k: int| entry_at::<T>(header, bytes, k)))
    }
}

/// `n` entries take `n` times the size of one, and entry `k` starts `k` sizes in.
pub proof fn lemma_encode_all<T: Layout>(entries: Seq<T>)
    ensures
        encode_all(entries).len() == entries.len() * T::spec_size(),
        forall|k: int|
            0 <= k < entries.len() ==> #[trigger] encode_all(entries).subrange(
                k * T::spec_size(),
                (k + 1) * T::spec_size(),
            ) == entries[k].encode(),
    decreases entries.len(),
{
    let size = T::spec_size() as int;
    if entries.len() == 0 {
    } else {
        let front = entries.drop_last();
        let n = front.len() as int;
        lemma_encode_all(front);
        T::lemma_encode(entries.last());
        assert((n + 1) * size == n * size + size) by (nonlinear_arith);
        assert forall|k: int| 0 <= k < entries.len() implies #[trigger] encode_all(
            entries,
        ).subrange(k * size, (k + 1) * size) == entries[k].encode() by {
            assert((k + 1) * size == k * size + size) by (nonlinear_arith);
            assert(0 <= k * size) by (nonlinear_arith)
                requires
                    0 <= k,
                    0 <= size,
            ;
            if k < n {
                assert((k + 1) * size <= n * size) by (nonlinear_arith)
                    requires
                        k + 1 <= n,
                        0 <= size,
                ;
                assert(encode_all(entries).subrange(k * size, (k + 1) * size) =~= encode_all(
                    front,
                ).subrange(k * size, (k + 1) * size));
            } else {
                assert(encode_all(entries).subrange(k * size, (k + 1) * size)
                    =~= entries.last().encode());
            }
        }
    }
}

/// Zeroed entries are written as zero bytes.
pub proof fn lemma_encode_all_zeroed<T: Layout>(n: nat)
    ensures
        encode_all(Seq::new(n, |i: int| T::zeroed())) == zeros(n * T::spec_size()),
    decreases n,
{
    let entries = Seq::new(n, |i: int| T::zeroed());
    let size = T::spec_size();
    if n == 0 {
        assert(n * size == 0) by (nonlinear_arith)
            requires
                n == 0,
        ;
        assert(encode_all(entries) =~= zeros(n * size));
    } else {
        let front = Seq::new((n - 1) as nat, |i: int| T::zeroed());
        lemma_encode_all_zeroed::<T>((n - 1) as nat);
        T::lemma_zeroed();
        assert(entries.drop_last() =~= front);
        assert(entries.last() == T::zeroed());
        assert(n * size == (n - 1) * size + size && 0 <= (n - 1) * size) by (nonlinear_arith)
            requires
                n >= 1,
                size >= 0,
        ;
        assert(encode_all(entries) == zeros(((n - 1) * size) as nat) + zeros(size));
        assert(zeros(((n - 1) * size) as nat) + zeros(size) =~= zeros(n * size));
    }
}

/// A buffer that holds the count and is zero behind it is the payload of that
/// many zeroed entries.
pub proof fn lemma_payload_zeroed<T: Layout>(header: nat, n: nat)
    requires
        4 <= header,
        n <= u32::MAX,
    ensures
        u32_le(n as u32) + zeros((header - 4 + n * T::spec_size()) as nat) == payload(
            header,
            Seq::new(n, |i: int| T::zeroed()),
        ),
{
    lemma_encode_all_zeroed::<T>(n);
    assert(0 <= n * T::spec_size()) by (nonlinear_arith);
    assert(u32_le(n as u32) + zeros((header - 4 + n * T::spec_size()) as nat) =~= payload(
        header,
        Seq::new(n, |i: int| T::zeroed()),
    ));
}

/// Reading a payload gives back the entries it was written from, in their order.
pub proof fn lemma_entries_of_payload<T: Layout>(header: nat, entries: Seq<T>)
    requires
        4 <= header,
        entries.len() <= u32::MAX,
    ensures
        payload(header, entries).len() == header + entries.len() * T::spec_size(),
        declared_count(payload(header, entries)) == entries.len(),
        capacity::<T>(header, payload(header, entries)) == entries.len(),
        entries_of::<T>(header, payload(header, entries)) == Ok::<Seq<T>, Error>(entries),
{
    let bytes = payload(header, entries);
    let size = T::spec_size() as int;
    let n = entries.len() as int;
    T::lemma_size();
    lemma_encode_all(entries);
    lemma_u32_le(n as u32, Seq::empty());
    assert(0 <= n * size) by (nonlinear_arith)
        requires
            0 <= n,
            0 <= size,
    ;
    assert((n * size) / size == n) by (nonlinear_arith)
        requires
            0 < size,
    ;
    assert(declared_count(bytes) == u32_at(u32_le(n as u32), 0)) by {
        reveal(u32_at);
    }
    let read = Seq::new(n as nat, |k: int| entry_at::<T>(header, bytes, k));
    assert forall|k: int| 0 <= k < n implies read[k] == entries[k] by {
        assert((k + 1) * size == k * size + size) by (nonlinear_arith);
        assert(0 <= k * size) by (nonlinear_arith)
            requires
                0 <= k,
                0 <= size,
        ;
        assert((k + 1) * size <= n * size) by (nonlinear_arith)
            requires
                k + 1 <= n,
                0 <= size,
        ;
        assert(bytes.subrange(header + k * size, header + (k + 1) * size) =~= encode_all(
            entries,
        ).subrange(k * size, (k + 1) * size));
        T::lemma_encode(entries[k]);
    }
    assert(read =~= entries);
}

/// A buffer allocated for `n` entries declares `n` entries and reads as `n`
/// zeroed entries.
pub proof fn lemma_entries_of_allocated<T: Layout>(header: nat, n: nat)
    requires
        4 <= header,
        n <= u32::MAX,
    ensures
        declared_count(payload(header, Seq::new(n, |i: int| T::zeroed()))) == n,
        entries_of::<T>(header, payload(header, Seq::new(n, |i: int| T::zeroed()))) == Ok::<
            Seq<T>,
            Error,
        >(Seq::new(n, |i: int| T::zeroed())),
{
    lemma_entries_of_payload(header, Seq::new(n, |i: int| T::zeroed()));
}

/// Whatever a buffer holds, a successful read stays inside it: it gives
/// exactly the declared number of entries, and the last of them ends within
/// the buffer. A count beyond the room there is fails the read.
pub proof fn lemma_entries_of_bounded<T: Layout>(header: nat, bytes: Seq<u8>)
    requires
        4 <= header,
    ensures
        entries_of::<T>(header, bytes) is Ok <==> header <= bytes.len() && declared_count(bytes)
            <= capacity::<T>(header, bytes),
        entries_of::<T>(header, bytes) matches Ok(entries) ==> entries.len() == declared_count(
            bytes,
        ) && header + entries.len() * T::spec_size() <= bytes.len(),
{
    T::lemma_size();
    if header <= bytes.len() {
        let size = T::spec_size() as int;
        let room = bytes.len() - header;
        let count = declared_count(bytes) as int;
        assert((room / size) * size <= room) by (nonlinear_arith)
            requires
                0 < size,
                0 <= room,
        ;
        if count <= room / size {
            assert(count * size <= (room / size) * size) by (nonlinear_arith)
                requires
                    count <= room / size,
                    0 <= size,
            ;
        }
    }
}

/// A zeroed buffer for `count` entries behind a header of `header` bytes, with
/// the count written into the header.
pub fn allocate<T: Layout>(header: usize, count: u32) -> (bytes: Vec<u8>)
    requires
        4 <= header,
        header + count * T::spec_size() <= usize::MAX,
    ensures
        bytes@ == payload(header as nat, Seq::new(count as nat, |i: int| T::zeroed())),
        bytes@ == u32_le(count) + zeros((header - 4 + count * T::spec_size()) as nat),
{
    let size = T::size();
    assert(0 <= count * size <= usize::MAX) by (nonlinear_arith)
        requires
            header + count * size <= usize::MAX,
            0 <= header,
            0 <= size,
            0 <= count,
    ;
    let mut bytes: Vec<u8> = Vec::new();
    put_u32(&mut bytes, count);
    put_zeros(&mut bytes, header - 4 + (count as usize) * size);
    proof {
        lemma_payload_zeroed::<T>(header as nat, count as nat);
    }
    bytes
}

/// The payload that carries `entries` behind a header of `header` bytes.
pub fn pack<T: Layout>(header: usize, entries: &[T]) -> (bytes: Vec<u8>)
    requires
        4 <= header,
        entries.len() <= u32::MAX,
    ensures
        bytes@ == payload(header as nat, entries@),
{
    let n = entries.len();
    let mut bytes: Vec<u8> = Vec::new();
    put_u32(&mut bytes, n as u32);
    put_zeros(&mut bytes, header - 4);
    let ghost head = bytes@;
    let mut i: usize = 0;
    while i < n
        invariant
            i <= n,
            n == entries.len(),
            head == u32_le(entries@.len() as u32) + zeros((header - 4) as nat),
            bytes@ == head + encode_all(entries@.take(i as int)),
        decreases n - i,
    {
        entries[i].put(&mut bytes);
        proof {
            let next = entries@.take(i + 1);
            assert(next.drop_last() =~= entries@.take(i as int));
            assert(next.last() == entries@[i as int]);
            assert(bytes@ =~= head + encode_all(next));
        }
        i = i + 1;
    }
    assert(entries@.take(n as int) =~= entries@);
    bytes
}

/// Reads a buffer as a payload with a header of `header` bytes.
///
/// The count comes from the buffer and is not trusted: if the buffer has no
/// room for that many entries the read fails and nothing beyond the buffer is
/// touched.
pub fn unpack<T: Layout>(header: usize, bytes: &[u8]) -> (r: Result<Vec<T>, Error>)
    requires
        4 <= header,
    ensures
        match r {
            Ok(entries) => entries_of::<T>(header as nat, bytes@) == Ok::<Seq<T>, Error>(entries@),
            Err(e) => entries_of::<T>(header as nat, bytes@) == Err::<Seq<T>, Error>(e),
        },
{
    let len = bytes.len();
    if len < header {
        return Err(Error::BufferLength { expected: header, actual: len });
    }
    let size = T::size();
    proof {
        T::lemma_size();
    }
    let count = get_u32(bytes, 0);
    let room = (len - header) / size;
    if count as usize > room {
        return Err(Error::CountExceedsCapacity { count, capacity: room });
    }
    assert(room * size <= len - header) by (nonlinear_arith)
        requires
            room == (len - header) / (size as int),
            0 < size,
            0 <= len - header,
    ;
    let mut entries: Vec<T> = Vec::new();
    let mut k: usize = 0;
    while k < count as usize
        invariant
            k <= count <= room,
            size == T::spec_size(),
            header <= len == bytes.len(),
            room * size <= len - header,
            entries@ == Seq::new(k as nat, |j: int| entry_at::<T>(header as nat, bytes@, j)),
        decreases count - k,
    {
        assert((k + 1) * size <= room * size && (k + 1) * size == k * size + size && 0 <= k * size)
            by (nonlinear_arith)
            requires
                k + 1 <= room,
                0 <= size,
                0 <= k,
        ;
        let v = T::get(bytes, header + k * size);
        entries.push(v);
        k = k + 1;
        assert(entries@ =~= Seq::new(k as nat, |j: int| entry_at::<T>(header as nat, bytes@, j)));
    }
    Ok(entries)
}

} // verus!
