//! Segment loading: page counts, copying with zero extension, and the
//! relocation delta that a fixed-then-fallback placement pass produces.
use vstd::prelude::*;
use crate::elf::{Elf64ProgramHeader, ElfError, PT_LOAD};

verus! {

/// Size in bytes of one allocation page.
pub const PAGE_SIZE: u64 = 4096;

/// Where the allocator put a segment.
#[derive(Debug, Clone, Copy, PartialEq, Eq, Structural)]
pub enum Placement {
    /// The pages were reserved at the segment's intended address.
    Fixed,
    /// The intended address was unavailable; the pages were reserved at this base.
    Fallback(u64),
}

/// A loadable segment's intended address and where it actually went.
#[derive(Debug, Clone, Copy, PartialEq, Eq, Structural)]
pub struct LoadedSegment {
    pub vaddr: u64,
    pub placement: Placement,
}

/// The segment takes part in loading.
pub open spec fn loadable(ph: Elf64ProgramHeader) -> bool {
    ph.p_type == PT_LOAD
}

/// Whether the segment described by `ph` is a loadable one.
pub fn is_loadable(ph: &Elf64ProgramHeader) -> (r: bool)
    ensures
        r == loadable(*ph),
{
    ph.p_type == PT_LOAD
}

/// Number of pages needed to hold `size` bytes: `ceil(size / PAGE_SIZE)`.
pub fn page_count(size: u64) -> (r: u64)
    ensures
        r == (size + PAGE_SIZE - 1) / PAGE_SIZE as int,
{
    if size % PAGE_SIZE == 0 {
        size / PAGE_SIZE
    } else {
        size / PAGE_SIZE + 1
    }
}

/// Address at which a segment's bytes are placed.
pub open spec fn destination_of(seg: LoadedSegment) -> u64 {
    match seg.placement {
        Placement::Fixed => seg.vaddr,
        Placement::Fallback(base) => base,
    }
}

/// Address at which the segment's bytes go: its intended address when the
/// fixed reservation succeeded, the fallback base otherwise.
pub fn destination(seg: &LoadedSegment) -> (r: u64)
    ensures
        r == destination_of(*seg),
{
    match seg.placement {
        Placement::Fixed => seg.vaddr,
        Placement::Fallback(base) => base,
    }
}

/// Relocation delta after placing `segs` in order: the difference between
/// the base and the intended address of the last segment that fell back, or
/// zero when none did.
pub open spec fn delta_of(segs: Seq<LoadedSegment>) -> int
    decreases segs.len(),
{
    if segs.len() == 0 {
        0
    } else {
        match segs.last().placement {
            Placement::Fixed => delta_of(segs.drop_last()),
            Placement::Fallback(base) => base - segs.last().vaddr,
        }
    }
}

/// The delta that replaces `delta` once `seg` has been placed.
pub open spec fn next_delta(delta: int, seg: LoadedSegment) -> int {
    match seg.placement {
        Placement::Fixed => delta,
        Placement::Fallback(base) => base - seg.vaddr,
    }
}

/// A delta that lies strictly between `-2^64` and `2^64`.
pub open spec fn delta_in_range(d: int) -> bool {
    -0x1_0000_0000_0000_0000 < d < 0x1_0000_0000_0000_0000
}

/// Updates the running relocation delta after one segment was placed: a
/// fallback placement overwrites it, a fixed one leaves it.
pub fn record_placement(delta: i128, seg: &LoadedSegment) -> (r: i128)
    ensures
        r == next_delta(delta as int, *seg),
{
    match seg.placement {
        Placement::Fixed => delta,
        Placement::Fallback(base) => base as i128 - seg.vaddr as i128,
    }
}

/// Relocation delta of a whole load pass over `segs`, in table order.
pub fn relocation_delta(segs: &[LoadedSegment]) -> (r: i128)
    ensures
        r == delta_of(segs@),
        delta_in_range(r as int),
{
    let mut delta: i128 = 0;
    let mut i: usize = 0;
    while i < segs.len()
        invariant
            i <= segs@.len(),
            delta == delta_of(segs@.subrange(0, i as int)),
            delta_in_range(delta as int),
        decreases segs@.len() - i,
    {
        assert(segs@.subrange(0, i + 1).drop_last() =~= segs@.subrange(0, i as int));
        delta = record_placement(delta, &segs[i]);
        i = i + 1;
    }
    assert(segs@.subrange(0, segs@.len() as int) =~= segs@);
    delta
}

/// `entry + delta`, wrapped to a 64-bit address.
pub open spec fn relocated(entry: u64, delta: int) -> int {
    (entry + delta) % 0x1_0000_0000_0000_0000
}

/// The entry address after relocation: `entry + delta` modulo `2^64`.
pub fn final_entry(entry: u64, delta: i128) -> (r: u64)
    requires
        delta_in_range(delta as int),
    ensures
        r == relocated(entry, delta as int),
{
    let s: i128 = entry as i128 + delta;
    if s < 0 {
        (s + 0x1_0000_0000_0000_0000) as u64
    } else if s >= 0x1_0000_0000_0000_0000 {
        (s - 0x1_0000_0000_0000_0000) as u64
    } else {
        s as u64
    }
}

/// The memory image of a segment: its file bytes followed by zeros up to
/// its memory size.
pub open spec fn segment_bytes(data: Seq<u8>, ph: Elf64ProgramHeader) -> Seq<u8> {
    Seq::new(
        ph.p_memsz as nat,
        |k: int|
            if k < ph.p_filesz {
                data[ph.p_offset + k]
            } else {
                0u8
            },
    )
}

/// The segment's file bytes lie inside the image and do not exceed its
/// memory size, and `dest_len` bytes can hold its memory image.
pub open spec fn segment_fits(data_len: int, ph: Elf64ProgramHeader, dest_len: int) -> bool {
    &&& ph.p_filesz <= ph.p_memsz
    &&& ph.p_offset + ph.p_filesz <= data_len
    &&& ph.p_memsz <= dest_len
}

/// Writes the memory image of segment `ph` of `data` to the start of `dest`:
/// its `p_filesz` file bytes, then zeros up to `p_memsz`. The rest of `dest`
/// is left as it was. Fails, and writes nothing, when the segment's sizes are
/// inconsistent, its bytes leave the image, or `dest` is too small.
pub fn fill_segment(dest: &mut [u8], data: &[u8], ph: &Elf64ProgramHeader) -> (r: Result<
    (),
    ElfError,
>)
    ensures
        r is Ok <==> segment_fits(data@.len() as int, *ph, old(dest)@.len() as int),
        ph.p_filesz > ph.p_memsz ==> r == Err::<(), ElfError>(ElfError::SegmentSizeInconsistent),
        ph.p_filesz <= ph.p_memsz && ph.p_offset + ph.p_filesz > data@.len() ==> r == Err::<
            (),
            ElfError,
        >(ElfError::SegmentOutOfRange),
        ph.p_filesz <= ph.p_memsz && ph.p_offset + ph.p_filesz <= data@.len() && ph.p_memsz
            > old(dest)@.len() ==> r == Err::<(), ElfError>(ElfError::DestinationTooSmall),
        r is Err ==> final(dest)@ == old(dest)@,
        r is Ok ==> final(dest)@ == segment_bytes(data@, *ph) + old(dest)@.subrange(
            ph.p_memsz as int,
            old(dest)@.len() as int,
        ),
{
    if ph.p_filesz > ph.p_memsz {
        return Err(ElfError::SegmentSizeInconsistent);
    }
    let n = data.len();
    let data_len = n as u64;
    if ph.p_offset > data_len || ph.p_filesz > data_len - ph.p_offset {
        return Err(ElfError::SegmentOutOfRange);
    }
    if ph.p_memsz > dest.len() as u64 {
        return Err(ElfError::DestinationTooSmall);
    }
    let src = ph.p_offset as usize;
    let file_len = ph.p_filesz as usize;
    let mem_len = ph.p_memsz as usize;
    let ghost before = dest@;
    let mut k: usize = 0;
    while k < mem_len
        invariant
            n == data@.len(),
            src == ph.p_offset,
            file_len == ph.p_filesz,
            mem_len == ph.p_memsz,
            file_len <= mem_len,
            src + file_len <= data@.len(),
            mem_len <= before.len(),
            k <= mem_len,
            dest@.len() == before.len(),
            forall|j: int| 0 <= j < k ==> dest@[j] == segment_bytes(data@, *ph)[j],
            forall|j: int| mem_len <= j < before.len() ==> dest@[j] == before[j],
        decreases mem_len - k,
    {
        if k < file_len {
            dest[k] = data[src + k];
        } else {
            dest[k] = 0;
        }
        k = k + 1;
    }
    assert(dest@ =~= segment_bytes(data@, *ph) + before.subrange(mem_len as int, before.len() as int));
    Ok(())
}

/// When every segment was reserved at its intended address, the pass
/// produces no relocation and the entry address is used unchanged.
pub proof fn lemma_all_fixed_no_relocation(segs: Seq<LoadedSegment>, entry: u64)
    requires
        forall|i: int| 0 <= i < segs.len() ==> #[trigger] segs[i].placement == Placement::Fixed,
    ensures
        delta_of(segs) == 0,
        relocated(entry, delta_of(segs)) == entry,
    decreases segs.len(),
{
    if segs.len() > 0 {
        assert(segs.last().placement == Placement::Fixed);
        let rest = segs.drop_last();
        assert forall|i: int| 0 <= i < rest.len() implies #[trigger] rest[i].placement
            == Placement::Fixed by {
            assert(rest[i] == segs[i]);
        }
        lemma_all_fixed_no_relocation(rest, entry);
    }
}

/// When exactly one segment fell back, to `base`, the delta of the pass is
/// `base` minus that segment's intended address, and the entry address is
/// shifted by it.
pub proof fn lemma_single_fallback_delta(segs: Seq<LoadedSegment>, k: int, base: u64, entry: u64)
    requires
        0 <= k < segs.len(),
        segs[k].placement == Placement::Fallback(base),
        forall|i: int| 0 <= i < segs.len() && i != k ==> #[trigger] segs[i].placement
            == Placement::Fixed,
    ensures
        delta_of(segs) == base - segs[k].vaddr,
        relocated(entry, delta_of(segs)) == relocated(entry, base - segs[k].vaddr),
    decreases segs.len(),
{
    if k < segs.len() - 1 {
        assert(segs.last().placement == Placement::Fixed);
        let rest = segs.drop_last();
        assert(rest[k] == segs[k]);
        assert forall|i: int| 0 <= i < rest.len() && i != k implies #[trigger] rest[i].placement
            == Placement::Fixed by {
            assert(rest[i] == segs[i]);
        }
        lemma_single_fallback_delta(rest, k, base, entry);
    }
}

} // verus!
