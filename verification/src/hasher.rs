//! The hasher that tells one tree of widgets from another.
//!
//! A tree is written to the hasher as a sequence of chunks of bytes, its
//! digest. Numbers are written with their least significant byte first.
use vstd::prelude::*;
use vstd::std_specs::hash::DefaultHasherAdditionalSpecFns;

verus! {

/// The hasher that is used to tell whether a layout has to be computed anew.
pub type Hasher = std::collections::hash_map::DefaultHasher;

/// The byte with which the digest of an empty space begins.
pub const SPACE: u8 = 0;

/// The byte with which the digest of a text begins.
pub const TEXT: u8 = 1;

/// The byte with which the digest of a button begins.
pub const BUTTON: u8 = 2;

/// The byte with which the digest of a container begins.
pub const CONTAINER: u8 = 3;

/// The byte with which the digest of a row begins.
pub const ROW: u8 = 4;

/// The byte with which the digest of a column begins.
pub const COLUMN: u8 = 5;

/// The byte that makes up the chunk behind the last child of a row or a
/// column.
pub const END: u8 = 6;

/// The two bytes of a number.
pub open spec fn u16_bytes(value: u16) -> Seq<u8> {
    seq![(value % 256) as u8, (value / 256) as u8]
}

/// The four bytes of a number.
pub open spec fn u32_bytes(value: u32) -> Seq<u8> {
    seq![
        (value % 256) as u8,
        (value / 256 % 256) as u8,
        (value / 65536 % 256) as u8,
        (value / 16777216) as u8,
    ]
}

/// The hash of a digest.
pub open spec fn spec_hash_of(digest: Seq<Seq<u8>>) -> u64 {
    Hasher::spec_finish(digest)
}

/// Appends the two bytes of `value` to `bytes`.
pub fn push_u16(bytes: &mut Vec<u8>, value: u16)
    ensures
        final(bytes)@ == old(bytes)@ + u16_bytes(value),
{
    bytes.push((value % 256) as u8);
    bytes.push((value / 256) as u8);
    assert(bytes@ =~= old(bytes)@ + u16_bytes(value));
}

/// Appends the four bytes of `value` to `bytes`.
pub fn push_u32(bytes: &mut Vec<u8>, value: u32)
    ensures
        final(bytes)@ == old(bytes)@ + u32_bytes(value),
{
    bytes.push((value % 256) as u8);
    bytes.push((value / 256 % 256) as u8);
    bytes.push((value / 65536 % 256) as u8);
    bytes.push((value / 16777216) as u8);
    assert(bytes@ =~= old(bytes)@ + u32_bytes(value));
}

/// Writes one chunk to the hasher.
pub fn write_chunk(state: &mut Hasher, chunk: &Vec<u8>)
    ensures
        final(state)@ == old(state)@.push(chunk@),
{
    std::hash::Hasher::write(state, chunk.as_slice());
}

/// Writes the bytes of a slice to the hasher, as one chunk.
pub fn write_bytes(state: &mut Hasher, chunk: &[u8])
    ensures
        final(state)@ == old(state)@.push(chunk@),
{
    std::hash::Hasher::write(state, chunk);
}

/// Computes the hash of all that was written to a hasher.
pub fn finish(state: &Hasher) -> (hash: u64)
    ensures
        hash == spec_hash_of(state@),
{
    std::hash::Hasher::finish(state)
}

/// The two bytes of a number tell the number.
pub proof fn lemma_u16_bytes(first: u16, second: u16)
    ensures
        u16_bytes(first).len() == 2,
        u16_bytes(first) == u16_bytes(second) ==> first == second,
{
    if u16_bytes(first) == u16_bytes(second) {
        assert(u16_bytes(first)[0] == u16_bytes(second)[0]);
        assert(u16_bytes(first)[1] == u16_bytes(second)[1]);
    }
}

/// The four bytes of a number tell the number.
pub proof fn lemma_u32_bytes(first: u32, second: u32)
    ensures
        u32_bytes(first).len() == 4,
        u32_bytes(first) == u32_bytes(second) ==> first == second,
{
    if u32_bytes(first) == u32_bytes(second) {
        assert(u32_bytes(first)[0] == u32_bytes(second)[0]);
        assert(u32_bytes(first)[1] == u32_bytes(second)[1]);
        assert(u32_bytes(first)[2] == u32_bytes(second)[2]);
        assert(u32_bytes(first)[3] == u32_bytes(second)[3]);
    }
}

/// Two sequences that are equal and begin with parts of the same length are
/// equal part by part.
pub proof fn lemma_split<T>(head: Seq<T>, tail: Seq<T>, other_head: Seq<T>, other_tail: Seq<T>)
    requires
        head + tail == other_head + other_tail,
        head.len() == other_head.len(),
    ensures
        head == other_head,
        tail == other_tail,
{
    let whole = head + tail;
    assert(head =~= whole.subrange(0, head.len() as int));
    assert(other_head =~= whole.subrange(0, head.len() as int));
    assert(tail =~= whole.subrange(head.len() as int, whole.len() as int));
    assert(other_tail =~= whole.subrange(head.len() as int, whole.len() as int));
}

} // verus!
