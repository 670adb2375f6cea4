//! Kernel heap placement: the heap goes in the first usable memory region
//! of at least 8 MiB, and uses at most 32 MiB of it.

use vstd::prelude::*;

verus! {

/// Smallest region the heap may be placed in.
pub const HEAP_MIN_REGION: u64 = 8 * 1024 * 1024;
/// Largest heap.
pub const HEAP_MAX_SIZE: u64 = 32 * 1024 * 1024;

/// One entry of the boot loader's memory map.
#[derive(Debug, Clone, Copy, PartialEq, Eq, Structural)]
pub struct MemRegion {
    /// Physical start address.
    pub base: u64,
    /// Length in bytes.
    pub length: u64,
    /// Whether the region is usable RAM.
    pub usable: bool,
}

/// Why the heap cannot be placed.
#[derive(Debug, Clone, Copy, PartialEq, Eq, Structural)]
pub enum HeapError {
    /// No usable region holds at least `HEAP_MIN_REGION` bytes.
    NoRegion,
    /// The virtual start address of the chosen region does not fit in 64 bits.
    AddressOverflow,
}

/// Whether the heap may be placed in `e`.
pub open spec fn fits_heap(e: MemRegion) -> bool {
    e.usable && e.length >= HEAP_MIN_REGION
}

/// The position of the first region the heap may be placed in.
pub open spec fn first_heap_region(entries: Seq<MemRegion>) -> Option<int> {
    if exists|i: int| 0 <= i < entries.len() && fits_heap(#[trigger] entries[i]) {
        Some(choose|i: int| 0 <= i < entries.len() && fits_heap(entries[i])
            && forall|j: int| 0 <= j < i ==> !fits_heap(#[trigger] entries[j]))
    } else {
        None
    }
}

/// The region `first_heap_region` picks is the first one the heap fits in.
pub proof fn lemma_first_heap_region(entries: Seq<MemRegion>, i: int)
    requires
        0 <= i < entries.len(),
        fits_heap(entries[i]),
        forall|j: int| 0 <= j < i ==> !fits_heap(#[trigger] entries[j]),
    ensures
        first_heap_region(entries) == Some(i),
{
    let k = choose|k: int| 0 <= k < entries.len() && fits_heap(entries[k])
        && forall|j: int| 0 <= j < k ==> !fits_heap(#[trigger] entries[j]);
    assert(0 <= k < entries.len() && fits_heap(entries[k])
        && forall|j: int| 0 <= j < k ==> !fits_heap(#[trigger] entries[j]));
    if k < i {
        assert(!fits_heap(entries[k]));
    }
    if i < k {
        assert(!fits_heap(entries[i]));
    }
}

/// The heap's virtual start address (physical base plus the higher-half
/// direct map offset) and size for the given memory map: the first region
/// the heap fits in, of which it takes at most `HEAP_MAX_SIZE` bytes.
pub fn heap_region(entries: &[MemRegion], hhdm_offset: u64) -> (r: Result<(u64, u64), HeapError>)
    ensures
        match first_heap_region(entries@) {
            Some(i) => {
                &&& 0 <= i < entries@.len()
                &&& fits_heap(entries@[i])
                &&& forall|j: int| 0 <= j < i ==> !fits_heap(#[trigger] entries@[j])
                &&& r == if entries@[i].base + hhdm_offset <= u64::MAX {
                    Ok((
                        (entries@[i].base + hhdm_offset) as u64,
                        if entries@[i].length < HEAP_MAX_SIZE { entries@[i].length } else { HEAP_MAX_SIZE },
                    ))
                } else {
                    Err(HeapError::AddressOverflow)
                }
            },
            None => (forall|j: int| 0 <= j < entries@.len() ==> !fits_heap(#[trigger] entries@[j]))
                && r == Err::<(u64, u64), HeapError>(HeapError::NoRegion),
        },
{
    let mut i: usize = 0;
    while i < entries.len()
        invariant
            i <= entries@.len(),
            forall|j: int| 0 <= j < i ==> !fits_heap(#[trigger] entries@[j]),
        decreases entries@.len() - i,
    {
        let entry = entries[i];
        if entry.usable && entry.length >= HEAP_MIN_REGION {
            proof { lemma_first_heap_region(entries@, i as int); }
            let start = match entry.base.checked_add(hhdm_offset) {
                Some(a) => a,
                None => return Err(HeapError::AddressOverflow),
            };
            let size = if entry.length < HEAP_MAX_SIZE { entry.length } else { HEAP_MAX_SIZE };
            return Ok((start, size));
        }
        i = i + 1;
    }
    Err(HeapError::NoRegion)
}

} // verus!
