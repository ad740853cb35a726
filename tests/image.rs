use reginald::elf::{
    segment_table, slice_to_elf_header, Elf64ProgramHeader, ElfError, PT_LOAD,
};
use reginald::loader::{
    destination, fill_segment, final_entry, is_loadable, page_count, record_placement,
    relocation_delta, LoadedSegment, Placement,
};

fn put16(b: &mut Vec<u8>, o: usize, v: u16) {
    b[o..o + 2].copy_from_slice(&v.to_le_bytes());
}

fn put32(b: &mut Vec<u8>, o: usize, v: u32) {
    b[o..o + 4].copy_from_slice(&v.to_le_bytes());
}

fn put64(b: &mut Vec<u8>, o: usize, v: u64) {
    b[o..o + 8].copy_from_slice(&v.to_le_bytes());
}

struct Seg {
    p_type: u32,
    offset: u64,
    vaddr: u64,
    filesz: u64,
    memsz: u64,
}

/// An image with a file header, a program-header table right after it, and
/// `payload` bytes at offset 0x100.
fn image(entry: u64, segs: &[Seg], payload: &[u8]) -> Vec<u8> {
    let mut b = vec![0u8; 0x100 + payload.len()];
    b[0..4].copy_from_slice(&[0x7f, b'E', b'L', b'F']);
    b[4] = 2;
    b[5] = 1;
    b[6] = 1;
    put16(&mut b, 16, 2);
    put16(&mut b, 18, 0x3e);
    put32(&mut b, 20, 1);
    put64(&mut b, 24, entry);
    put64(&mut b, 32, 64);
    put64(&mut b, 40, 0);
    put32(&mut b, 48, 0);
    put16(&mut b, 52, 64);
    put16(&mut b, 54, 56);
    put16(&mut b, 56, segs.len() as u16);
    put16(&mut b, 58, 64);
    put16(&mut b, 60, 0);
    put16(&mut b, 62, 0);
    for (i, s) in segs.iter().enumerate() {
        let o = 64 + i * 56;
        put32(&mut b, o, s.p_type);
        put32(&mut b, o + 4, 5);
        put64(&mut b, o + 8, s.offset);
        put64(&mut b, o + 16, s.vaddr);
        put64(&mut b, o + 24, s.vaddr);
        put64(&mut b, o + 32, s.filesz);
        put64(&mut b, o + 40, s.memsz);
        put64(&mut b, o + 48, 0x1000);
    }
    b[0x100..].copy_from_slice(payload);
    b
}

fn two_segment_image(entry: u64) -> Vec<u8> {
    let segs = [
        Seg { p_type: PT_LOAD, offset: 0x100, vaddr: 0x200000, filesz: 8, memsz: 0x1800 },
        Seg { p_type: PT_LOAD, offset: 0x108, vaddr: 0x400000, filesz: 4, memsz: 16 },
    ];
    image(entry, &segs, &[1, 2, 3, 4, 5, 6, 7, 8, 9, 10, 11, 12])
}

#[test]
fn header_keeps_entry_and_fields() {
    let b = two_segment_image(0x0020_1234);
    let h = slice_to_elf_header(&b).unwrap();
    assert_eq!(h.e_entry, 0x0020_1234);
    assert_eq!(&h.e_ident[0..4], &[0x7f, b'E', b'L', b'F']);
    assert_eq!(h.e_ident[4], 2);
    assert_eq!(h.e_type, 2);
    assert_eq!(h.e_machine, 0x3e);
    assert_eq!(h.e_version, 1);
    assert_eq!(h.e_phoff, 64);
    assert_eq!(h.e_phentsize, 56);
    assert_eq!(h.e_phnum, 2);
    assert_eq!(h.e_ehsize, 64);
}

#[test]
fn header_keeps_large_entry() {
    let b = two_segment_image(0xffff_8000_0010_0000);
    let h = slice_to_elf_header(&b).unwrap();
    assert_eq!(h.e_entry, 0xffff_8000_0010_0000);
}

#[test]
fn header_rejects_each_altered_magic_byte() {
    let good = two_segment_image(0x201000);
    for i in 0..4 {
        let mut b = good.clone();
        b[i] ^= 0x20;
        assert_eq!(slice_to_elf_header(&b).unwrap_err(), ElfError::BadMagic);
    }
}

#[test]
fn header_rejects_short_buffer() {
    let b = two_segment_image(0x201000);
    assert_eq!(slice_to_elf_header(&b[..63]).unwrap_err(), ElfError::TooShort);
    assert_eq!(slice_to_elf_header(&[]).unwrap_err(), ElfError::TooShort);
    assert!(slice_to_elf_header(&b[..64]).is_ok());
}

#[test]
fn table_reads_every_entry() {
    let b = two_segment_image(0x201000);
    let h = slice_to_elf_header(&b).unwrap();
    let t = segment_table(&b, &h).unwrap();
    assert_eq!(t.len(), 2);
    assert_eq!(
        t[0],
        Elf64ProgramHeader {
            p_type: 1,
            p_flags: 5,
            p_offset: 0x100,
            p_vaddr: 0x200000,
            p_paddr: 0x200000,
            p_filesz: 8,
            p_memsz: 0x1800,
            p_align: 0x1000,
        }
    );
    assert_eq!(t[1].p_vaddr, 0x400000);
    assert_eq!(t[1].p_offset, 0x108);
    assert_eq!(t[1].p_memsz, 16);
}

#[test]
fn table_past_end_is_rejected() {
    let mut b = two_segment_image(0x201000);
    put16(&mut b, 56, 5);
    let h = slice_to_elf_header(&b).unwrap();
    assert_eq!(segment_table(&b, &h).unwrap_err(), ElfError::TableOutOfRange);
    put64(&mut b, 32, u64::MAX);
    let h = slice_to_elf_header(&b).unwrap();
    assert_eq!(segment_table(&b, &h).unwrap_err(), ElfError::TableOutOfRange);
}

#[test]
fn empty_table_is_empty() {
    let b = image(0x1000, &[], &[]);
    let h = slice_to_elf_header(&b).unwrap();
    assert!(segment_table(&b, &h).unwrap().is_empty());
}

#[test]
fn only_load_segments_are_loadable() {
    let b = image(
        0,
        &[
            Seg { p_type: 6, offset: 0, vaddr: 0, filesz: 0, memsz: 0 },
            Seg { p_type: PT_LOAD, offset: 0, vaddr: 0, filesz: 0, memsz: 0 },
        ],
        &[],
    );
    let h = slice_to_elf_header(&b).unwrap();
    let t = segment_table(&b, &h).unwrap();
    assert!(!is_loadable(&t[0]));
    assert!(is_loadable(&t[1]));
}

#[test]
fn page_counts_round_up() {
    assert_eq!(page_count(0), 0);
    assert_eq!(page_count(1), 1);
    assert_eq!(page_count(4096), 1);
    assert_eq!(page_count(4097), 2);
    assert_eq!(page_count(0x1800), 2);
    assert_eq!(page_count(u64::MAX), 0x10_0000_0000_0000);
}

#[test]
fn fill_copies_then_zero_extends() {
    let b = two_segment_image(0x201000);
    let h = slice_to_elf_header(&b).unwrap();
    let t = segment_table(&b, &h).unwrap();
    let mut dest = vec![0xaau8; 24];
    fill_segment(&mut dest, &b, &t[1]).unwrap();
    assert_eq!(&dest[0..4], &[9, 10, 11, 12]);
    assert!(dest[4..16].iter().all(|&x| x == 0));
    assert!(dest[16..].iter().all(|&x| x == 0xaa));
}

#[test]
fn fill_larger_segment() {
    let b = two_segment_image(0x201000);
    let h = slice_to_elf_header(&b).unwrap();
    let t = segment_table(&b, &h).unwrap();
    let mut dest = vec![0x55u8; 0x2000];
    fill_segment(&mut dest, &b, &t[0]).unwrap();
    assert_eq!(&dest[0..8], &[1, 2, 3, 4, 5, 6, 7, 8]);
    assert!(dest[8..0x1800].iter().all(|&x| x == 0));
    assert!(dest[0x1800..].iter().all(|&x| x == 0x55));
}

fn ph(offset: u64, filesz: u64, memsz: u64) -> Elf64ProgramHeader {
    Elf64ProgramHeader {
        p_type: PT_LOAD,
        p_flags: 0,
        p_offset: offset,
        p_vaddr: 0x200000,
        p_paddr: 0,
        p_filesz: filesz,
        p_memsz: memsz,
        p_align: 0x1000,
    }
}

#[test]
fn fill_errors_leave_destination() {
    let data = [7u8; 32];
    let mut dest = vec![0xeeu8; 16];
    assert_eq!(
        fill_segment(&mut dest, &data, &ph(0, 9, 8)).unwrap_err(),
        ElfError::SegmentSizeInconsistent
    );
    assert_eq!(
        fill_segment(&mut dest, &data, &ph(30, 4, 8)).unwrap_err(),
        ElfError::SegmentOutOfRange
    );
    assert_eq!(
        fill_segment(&mut dest, &data, &ph(u64::MAX, 4, 8)).unwrap_err(),
        ElfError::SegmentOutOfRange
    );
    assert_eq!(
        fill_segment(&mut dest, &data, &ph(0, 4, 17)).unwrap_err(),
        ElfError::DestinationTooSmall
    );
    assert!(dest.iter().all(|&x| x == 0xee));
}

#[test]
fn fill_bss_only_segment() {
    let data = [7u8; 4];
    let mut dest = vec![0xeeu8; 8];
    fill_segment(&mut dest, &data, &ph(4, 0, 8)).unwrap();
    assert_eq!(dest, vec![0u8; 8]);
}

#[test]
fn all_fixed_gives_no_relocation() {
    let segs = [
        LoadedSegment { vaddr: 0x200000, placement: Placement::Fixed },
        LoadedSegment { vaddr: 0x400000, placement: Placement::Fixed },
    ];
    let d = relocation_delta(&segs);
    assert_eq!(d, 0);
    assert_eq!(final_entry(0x201000, d), 0x201000);
    assert_eq!(relocation_delta(&[]), 0);
}

#[test]
fn one_fallback_shifts_entry() {
    let segs = [
        LoadedSegment { vaddr: 0x200000, placement: Placement::Fixed },
        LoadedSegment { vaddr: 0x400000, placement: Placement::Fallback(0x7f00000) },
        LoadedSegment { vaddr: 0x600000, placement: Placement::Fixed },
    ];
    let d = relocation_delta(&segs);
    assert_eq!(d, 0x7f00000 - 0x400000);
    assert_eq!(final_entry(0x401000, d), 0x7f01000);
}

#[test]
fn negative_delta_and_last_fallback_wins() {
    let segs = [
        LoadedSegment { vaddr: 0x400000, placement: Placement::Fallback(0x900000) },
        LoadedSegment { vaddr: 0x800000, placement: Placement::Fallback(0x100000) },
    ];
    let d = relocation_delta(&segs);
    assert_eq!(d, -0x700000);
    assert_eq!(final_entry(0x801000, d), 0x101000);
}

#[test]
fn record_and_destination() {
    let fixed = LoadedSegment { vaddr: 0x200000, placement: Placement::Fixed };
    let moved = LoadedSegment { vaddr: 0x200000, placement: Placement::Fallback(0x300000) };
    assert_eq!(record_placement(-5, &fixed), -5);
    assert_eq!(record_placement(-5, &moved), 0x100000);
    assert_eq!(destination(&fixed), 0x200000);
    assert_eq!(destination(&moved), 0x300000);
}

#[test]
fn final_entry_wraps() {
    assert_eq!(final_entry(0x10, -0x20), u64::MAX - 0xf);
    assert_eq!(final_entry(u64::MAX, 1), 0);
    assert_eq!(final_entry(5, u64::MAX as i128), 4);
}

/// Loads the two-segment image with segment A placed at its intended
/// address and segment B moved to `x`; returns the entry address, the delta
/// and the final entry address.
fn load_two_segments(entry: u64, x: u64) -> (u64, i128, u64) {
    let b = two_segment_image(entry);
    let h = slice_to_elf_header(&b).unwrap();
    let t = segment_table(&b, &h).unwrap();
    let mut memory_a = vec![0xffu8; 0x2000];
    let mut memory_b = vec![0xffu8; 0x1000];
    let placed = [
        LoadedSegment { vaddr: t[0].p_vaddr, placement: Placement::Fixed },
        LoadedSegment { vaddr: t[1].p_vaddr, placement: Placement::Fallback(x) },
    ];
    assert!(is_loadable(&t[0]) && is_loadable(&t[1]));
    assert_eq!(destination(&placed[0]), 0x200000);
    assert_eq!(destination(&placed[1]), x);
    fill_segment(&mut memory_a, &b, &t[0]).unwrap();
    fill_segment(&mut memory_b, &b, &t[1]).unwrap();
    assert_eq!(&memory_a[0..8], &[1, 2, 3, 4, 5, 6, 7, 8]);
    assert!(memory_a[8..0x1800].iter().all(|&v| v == 0));
    assert_eq!(&memory_b[0..4], &[9, 10, 11, 12]);
    assert!(memory_b[4..16].iter().all(|&v| v == 0));
    let d = relocation_delta(&placed);
    (h.e_entry, d, final_entry(h.e_entry, d))
}

#[test]
fn two_segments_entry_in_moved_segment() {
    let x: u64 = 0x0ab0_0000;
    let (entry, d, fin) = load_two_segments(0x400008, x);
    assert_eq!(d, x as i128 - 0x400000);
    assert_eq!(fin, entry + x - 0x400000);
    assert_eq!(fin, 0x0ab0_0008);
}

#[test]
fn two_segments_entry_in_fixed_segment() {
    // The single delta of the pass applies to the entry wherever it lies.
    let x: u64 = 0x0ab0_0000;
    let (entry, d, fin) = load_two_segments(0x200100, x);
    assert_eq!(d, x as i128 - 0x400000);
    assert_eq!(fin, 0x200100 + x - 0x400000);
    assert_ne!(fin, entry);
}
