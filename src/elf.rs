//! Parsing of 64-bit ELF headers and program-header tables.
use vstd::prelude::*;

verus! {

/// Size in bytes of an ELF64 file header.
pub const ELF_HEADER_SIZE: usize = 64;

/// Size in bytes of one ELF64 program-header table entry.
pub const PROGRAM_HEADER_SIZE: usize = 56;

/// Program-header type of a loadable segment.
pub const PT_LOAD: u32 = 1;

/// The fields of an ELF64 file header, as stored little-endian at the start of
/// the image.
#[derive(Debug, Clone, Copy)]
pub struct Elf64Header {
    pub e_ident: [u8; 16],
    pub e_type: u16,
    pub e_machine: u16,
    pub e_version: u32,
    pub e_entry: u64,
    pub e_phoff: u64,
    pub e_shoff: u64,
    pub e_flags: u32,
    pub e_ehsize: u16,
    pub e_phentsize: u16,
    pub e_phnum: u16,
    pub e_shentsize: u16,
    pub e_shnum: u16,
    pub e_shstrndx: u16,
}

/// One entry of an ELF64 program-header table.
#[derive(Debug, Clone, Copy, PartialEq, Eq, Structural)]
pub struct Elf64ProgramHeader {
    pub p_type: u32,
    pub p_flags: u32,
    pub p_offset: u64,
    pub p_vaddr: u64,
    pub p_paddr: u64,
    pub p_filesz: u64,
    pub p_memsz: u64,
    pub p_align: u64,
}

/// Why an image, or a part of it, cannot be used.
#[derive(Debug, Clone, Copy, PartialEq, Eq, Structural)]
pub enum ElfError {
    /// The buffer is shorter than a file header.
    TooShort,
    /// The four identification bytes are not `0x7F 'E' 'L' 'F'`.
    BadMagic,
    /// The program-header table reaches past the end of the buffer.
    TableOutOfRange,
    /// A segment's file bytes reach past the end of the buffer.
    SegmentOutOfRange,
    /// A segment declares more file bytes than memory bytes.
    SegmentSizeInconsistent,
    /// The destination region is smaller than the segment's memory size.
    DestinationTooSmall,
}

/// Little-endian 16-bit value at offset `o` of `s`.
pub open spec fn le16(s: Seq<u8>, o: int) -> int {
    s[o] as int + s[o + 1] as int * 0x100
}

/// Little-endian 32-bit value at offset `o` of `s`.
pub open spec fn le32(s: Seq<u8>, o: int) -> int {
    le16(s, o) + le16(s, o + 2) * 0x10000
}

/// Little-endian 64-bit value at offset `o` of `s`.
pub open spec fn le64(s: Seq<u8>, o: int) -> int {
    le32(s, o) + le32(s, o + 4) * 0x1_0000_0000
}

/// The image starts with the ELF identification bytes.
pub open spec fn has_elf_magic(s: Seq<u8>) -> bool {
    &&& s.len() >= 4
    &&& s[0] == 0x7f
    &&& s[1] == 0x45
    &&& s[2] == 0x4c
    &&& s[3] == 0x46
}

/// `h` holds exactly the header fields stored at the start of `s`.
pub open spec fn header_of(h: Elf64Header, s: Seq<u8>) -> bool {
    &&& h.e_ident@ == s.subrange(0, 16)
    &&& h.e_type == le16(s, 16)
    &&& h.e_machine == le16(s, 18)
    &&& h.e_version == le32(s, 20)
    &&& h.e_entry == le64(s, 24)
    &&& h.e_phoff == le64(s, 32)
    &&& h.e_shoff == le64(s, 40)
    &&& h.e_flags == le32(s, 48)
    &&& h.e_ehsize == le16(s, 52)
    &&& h.e_phentsize == le16(s, 54)
    &&& h.e_phnum == le16(s, 56)
    &&& h.e_shentsize == le16(s, 58)
    &&& h.e_shnum == le16(s, 60)
    &&& h.e_shstrndx == le16(s, 62)
}

/// `p` holds exactly the program-header fields stored at offset `o` of `s`.
pub open spec fn program_header_of(p: Elf64ProgramHeader, s: Seq<u8>, o: int) -> bool {
    &&& p.p_type == le32(s, o)
    &&& p.p_flags == le32(s, o + 4)
    &&& p.p_offset == le64(s, o + 8)
    &&& p.p_vaddr == le64(s, o + 16)
    &&& p.p_paddr == le64(s, o + 24)
    &&& p.p_filesz == le64(s, o + 32)
    &&& p.p_memsz == le64(s, o + 40)
    &&& p.p_align == le64(s, o + 48)
}

fn read_u16(data: &[u8], off: usize) -> (r: u16)
    requires
        off + 2 <= data@.len(),
    ensures
        r == le16(data@, off as int),
{
    data[off] as u16 + (data[off + 1] as u16) * 0x100
}

fn read_u32(data: &[u8], off: usize) -> (r: u32)
    requires
        off + 4 <= data@.len(),
    ensures
        r == le32(data@, off as int),
{
    // The slice's length is a usize, so offsets below it cannot overflow.
    let _n = data.len();
    read_u16(data, off) as u32 + (read_u16(data, off + 2) as u32) * 0x10000
}

fn read_u64(data: &[u8], off: usize) -> (r: u64)
    requires
        off + 8 <= data@.len(),
    ensures
        r == le64(data@, off as int),
{
    // The slice's length is a usize, so offsets below it cannot overflow.
    let _n = data.len();
    read_u32(data, off) as u64 + (read_u32(data, off + 4) as u64) * 0x1_0000_0000
}

/// Reads the file header at the start of `data`, after checking that the
/// buffer is long enough and starts with the ELF identification bytes.
pub fn slice_to_elf_header(data: &[u8]) -> (r: Result<Elf64Header, ElfError>)
    ensures
        data@.len() < ELF_HEADER_SIZE ==> r == Err::<Elf64Header, ElfError>(ElfError::TooShort),
        data@.len() >= ELF_HEADER_SIZE && !has_elf_magic(data@) ==> r == Err::<
            Elf64Header,
            ElfError,
        >(ElfError::BadMagic),
        data@.len() >= ELF_HEADER_SIZE && has_elf_magic(data@) ==> r is Ok && header_of(
            r->Ok_0,
            data@,
        ),
{
    if data.len() < ELF_HEADER_SIZE {
        return Err(ElfError::TooShort);
    }
    if data[0] != 0x7f || data[1] != 0x45 || data[2] != 0x4c || data[3] != 0x46 {
        return Err(ElfError::BadMagic);
    }
    let e_ident = [
        data[0], data[1], data[2], data[3], data[4], data[5], data[6], data[7],
        data[8], data[9], data[10], data[11], data[12], data[13], data[14], data[15],
    ];
    let h = Elf64Header {
        e_ident,
        e_type: read_u16(data, 16),
        e_machine: read_u16(data, 18),
        e_version: read_u32(data, 20),
        e_entry: read_u64(data, 24),
        e_phoff: read_u64(data, 32),
        e_shoff: read_u64(data, 40),
        e_flags: read_u32(data, 48),
        e_ehsize: read_u16(data, 52),
        e_phentsize: read_u16(data, 54),
        e_phnum: read_u16(data, 56),
        e_shentsize: read_u16(data, 58),
        e_shnum: read_u16(data, 60),
        e_shstrndx: read_u16(data, 62),
    };
    assert(h.e_ident@ =~= data@.subrange(0, 16));
    Ok(h)
}

/// The program-header table that `h` declares lies inside a buffer of `len` bytes.
pub open spec fn table_fits(h: Elf64Header, len: int) -> bool {
    h.e_phoff + h.e_phnum * PROGRAM_HEADER_SIZE <= len
}

fn read_program_header(data: &[u8], off: usize) -> (r: Elf64ProgramHeader)
    requires
        off + PROGRAM_HEADER_SIZE <= data@.len(),
    ensures
        program_header_of(r, data@, off as int),
{
    // The slice's length is a usize, so offsets below it cannot overflow.
    let _n = data.len();
    Elf64ProgramHeader {
        p_type: read_u32(data, off),
        p_flags: read_u32(data, off + 4),
        p_offset: read_u64(data, off + 8),
        p_vaddr: read_u64(data, off + 16),
        p_paddr: read_u64(data, off + 24),
        p_filesz: read_u64(data, off + 32),
        p_memsz: read_u64(data, off + 40),
        p_align: read_u64(data, off + 48),
    }
}

/// Reads the program-header table that `header` declares: `e_phnum` entries
/// of 56 bytes from offset `e_phoff`, or an error when it does not fit.
pub fn segment_table(data: &[u8], header: &Elf64Header) -> (r: Result<
    Vec<Elf64ProgramHeader>,
    ElfError,
>)
    ensures
        !table_fits(*header, data@.len() as int) ==> r == Err::<Vec<Elf64ProgramHeader>, ElfError>(
            ElfError::TableOutOfRange,
        ),
        table_fits(*header, data@.len() as int) ==> r is Ok,
        r is Ok ==> r->Ok_0@.len() == header.e_phnum && forall|i: int|
            0 <= i < header.e_phnum ==> #[trigger] program_header_of(
                r->Ok_0@[i],
                data@,
                header.e_phoff + i * PROGRAM_HEADER_SIZE,
            ),
{
    let n = data.len();
    let len = n as u64;
    if header.e_phoff > len || (header.e_phnum as u64) * (PROGRAM_HEADER_SIZE as u64) > len
        - header.e_phoff {
        return Err(ElfError::TableOutOfRange);
    }
    let base = header.e_phoff as usize;
    let count = header.e_phnum as usize;
    let mut table: Vec<Elf64ProgramHeader> = Vec::new();
    let mut i: usize = 0;
    while i < count
        invariant
            n == data@.len(),
            count == header.e_phnum,
            base == header.e_phoff,
            table_fits(*header, data@.len() as int),
            i <= count,
            table@.len() == i,
            forall|j: int|
                0 <= j < i ==> #[trigger] program_header_of(
                    table@[j],
                    data@,
                    header.e_phoff + j * PROGRAM_HEADER_SIZE,
                ),
        decreases count - i,
    {
        assert(i * PROGRAM_HEADER_SIZE + PROGRAM_HEADER_SIZE <= count * PROGRAM_HEADER_SIZE)
            by (nonlinear_arith)
            requires
                i < count,
        ;
        let ph = read_program_header(data, base + i * PROGRAM_HEADER_SIZE);
        table.push(ph);
        i = i + 1;
    }
    Ok(table)
}

} // verus!
