//! The linear memory of a sandbox, seen from the host.
//!
//! A sandboxed process names a stretch of its memory by a 32-bit offset and a
//! 32-bit length. A stretch that does not lie inside the memory is never
//! read or written.

use vstd::prelude::*;

verus! {

/// Whether the stretch of `len` bytes at `ptr` lies inside a memory of
/// `memory_len` bytes.
pub open spec fn spec_in_bounds(memory_len: nat, ptr: int, len: int) -> bool {
    0 <= ptr && 0 <= len && ptr + len <= memory_len
}

/// The bytes of a stretch that lies inside the memory.
pub open spec fn spec_region(memory: Seq<u8>, ptr: int, len: int) -> Seq<u8>
    recommends
        spec_in_bounds(memory.len(), ptr, len),
{
    memory.subrange(ptr, ptr + len)
}

/// The memory after `bytes` were written at `at`: those bytes there, and
/// every other byte as before.
pub open spec fn spec_write(memory: Seq<u8>, at: int, bytes: Seq<u8>) -> Seq<u8>
    recommends
        spec_in_bounds(memory.len(), at, bytes.len() as int),
{
    Seq::new(
        memory.len(),
        |k: int|
            if at <= k < at + bytes.len() {
                bytes[k - at]
            } else {
                memory[k]
            },
    )
}

/// A write changes the stretch that it is given and nothing else: the memory
/// keeps its length, every byte outside the stretch keeps its value, and the
/// stretch holds the bytes written.
pub proof fn lemma_write_stays_inside(memory: Seq<u8>, at: int, bytes: Seq<u8>)
    requires
        spec_in_bounds(memory.len(), at, bytes.len() as int),
    ensures
        spec_write(memory, at, bytes).len() == memory.len(),
        forall|k: int|
            0 <= k < memory.len() && !(at <= k < at + bytes.len()) ==> spec_write(
                memory,
                at,
                bytes,
            )[k] == memory[k],
        spec_region(spec_write(memory, at, bytes), at, bytes.len() as int) == bytes,
{
    assert(spec_region(spec_write(memory, at, bytes), at, bytes.len() as int) =~= bytes);
}

/// The stretch of `len` bytes at `ptr`, or `None` where it does not lie
/// inside the memory.
pub fn read_bytes(memory: &[u8], ptr: u32, len: u32) -> (region: Option<&[u8]>)
    ensures
        region is Some <==> spec_in_bounds(memory@.len(), ptr as int, len as int),
        region matches Some(bytes) ==> bytes@ == spec_region(memory@, ptr as int, len as int),
{
    let end: u64 = ptr as u64 + len as u64;
    if end <= memory.len() as u64 {
        Some(vstd::slice::slice_subrange(memory, ptr as usize, end as usize))
    } else {
        None
    }
}

/// Writes `bytes` at `at` where they fit, and says whether they did. A
/// memory that they do not fit into is left as it is.
pub fn write_bytes(memory: &mut [u8], at: usize, bytes: &[u8]) -> (written: bool)
    ensures
        written == spec_in_bounds(old(memory)@.len(), at as int, bytes@.len() as int),
        written ==> final(memory)@ == spec_write(old(memory)@, at as int, bytes@),
        !written ==> final(memory)@ == old(memory)@,
{
    if at > memory.len() || bytes.len() > memory.len() - at {
        return false;
    }
    let mut j: usize = 0;
    while j < bytes.len()
        invariant
            j <= bytes@.len(),
            at + bytes@.len() <= memory@.len() <= usize::MAX,
            memory@.len() == old(memory)@.len(),
            forall|k: int|
                0 <= k < memory@.len() ==> memory@[k] == (if at <= k < at + j {
                    bytes@[k - at]
                } else {
                    old(memory)@[k]
                }),
        decreases bytes@.len() - j,
    {
        memory[at + j] = bytes[j];
        j = j + 1;
    }
    assert(memory@ =~= spec_write(old(memory)@, at as int, bytes@));
    true
}

} // verus!
