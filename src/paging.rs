//! Construction of the four-level page-table hierarchy that identity-maps the
//! low 2 GiB of physical memory and mirrors it at the higher-half base, and a
//! model of the hardware's address translation over it.
use vstd::prelude::*;

verus! {

/// Size in bytes of a page-table node and of a small page.
pub const TABLE_SIZE: u64 = 4096;

/// Entries in one page-table node.
pub const ENTRY_COUNT: usize = 512;

/// Base of the higher-half virtual region (canonical, sign-extended).
pub const HIGHER_HALF_BASE: u64 = 0xffff_8000_0000_0000;

/// Top-level index of the higher-half region: bits 47:39 of `HIGHER_HALF_BASE`.
pub const KERNEL_PML4_INDEX: usize = 256;

/// Size in bytes of one huge page.
pub const HUGE_PAGE_SIZE: u64 = 0x20_0000;

/// Entry flag: the entry is valid.
pub const PRESENT: u64 = 0x1;

/// Entry flag: writes are allowed.
pub const WRITABLE: u64 = 0x2;

/// Entry flag: the entry maps a huge page rather than a lower-level node.
pub const HUGE_PAGE: u64 = 0x80;

/// Flags of an entry that links a node to the next level: `PRESENT | WRITABLE`.
pub const LINK_FLAGS: u64 = 0x3;

/// Flags of an entry that maps a huge page: `PRESENT | WRITABLE | HUGE_PAGE`.
pub const LEAF_FLAGS: u64 = 0x83;

/// One page-table node: its physical address and its 512 entries.
#[derive(Debug)]
pub struct PageTable {
    pub phys: u64,
    pub entries: Vec<u64>,
}

/// The page-table hierarchy built for the kernel, with the physical address
/// of its top-level node.
#[derive(Debug)]
pub struct PagingContext {
    pub pml4_phys_addr: u64,
    pub tables: Vec<PageTable>,
}

/// The seven page frames, reserved by the caller, that receive the nodes of
/// the hierarchy.
#[derive(Debug, Clone, Copy, PartialEq, Eq, Structural)]
pub struct TableFrames {
    pub pml4: u64,
    pub pdpt_identity: u64,
    pub pdpt_higher_half: u64,
    pub pd_identity_low: u64,
    pub pd_identity_high: u64,
    pub pd_higher_half_low: u64,
    pub pd_higher_half_high: u64,
}

/// The frames in the order in which `setup_paging` lays out the nodes.
pub open spec fn frame_seq(f: TableFrames) -> Seq<u64> {
    seq![
        f.pml4,
        f.pdpt_identity,
        f.pdpt_higher_half,
        f.pd_identity_low,
        f.pd_identity_high,
        f.pd_higher_half_low,
        f.pd_higher_half_high,
    ]
}

/// A frame can hold a node: it is page-aligned and within the 52-bit
/// physical address space.
pub open spec fn frame_ok(a: u64) -> bool {
    a % TABLE_SIZE == 0 && a < 0x10_0000_0000_0000
}

/// Every frame can hold a node, and no two coincide.
pub open spec fn frames_ok(f: TableFrames) -> bool {
    &&& forall|i: int| 0 <= i < 7 ==> #[trigger] frame_ok(frame_seq(f)[i])
    &&& forall|i: int, j: int|
        0 <= i < 7 && 0 <= j < 7 && i != j ==> frame_seq(f)[i] != frame_seq(f)[j]
}

/// Entries of a node that links `a` at index `ia` and `b` at index `ib`.
pub open spec fn directory_entries(ia: int, a: u64, ib: int, b: u64) -> Seq<u64> {
    Seq::new(
        ENTRY_COUNT as nat,
        |i: int|
            if i == ia {
                (a + LINK_FLAGS) as u64
            } else if i == ib {
                (b + LINK_FLAGS) as u64
            } else {
                0u64
            },
    )
}

/// Entry that maps huge page number `n` present, writable and huge.
pub open spec fn huge_entry(n: int) -> u64 {
    (n * HUGE_PAGE_SIZE + LEAF_FLAGS) as u64
}

/// Entries of a leaf node whose entry `i` maps huge page `first + i`.
pub open spec fn leaf_entries(first: int) -> Seq<u64> {
    Seq::new(ENTRY_COUNT as nat, |i: int| huge_entry(first + i))
}

/// The entries that node `k` of the hierarchy (in `frame_seq` order) holds.
pub open spec fn expected_entries(f: TableFrames, k: int) -> Seq<u64> {
    if k == 0 {
        directory_entries(0, f.pdpt_identity, KERNEL_PML4_INDEX as int, f.pdpt_higher_half)
    } else if k == 1 {
        directory_entries(0, f.pd_identity_low, 1, f.pd_identity_high)
    } else if k == 2 {
        directory_entries(0, f.pd_higher_half_low, 1, f.pd_higher_half_high)
    } else if k == 3 || k == 5 {
        leaf_entries(0)
    } else {
        leaf_entries(ENTRY_COUNT as int)
    }
}

/// `ctx` is the hierarchy built in `f`: node `k` sits at frame `k` and holds
/// `expected_entries(f, k)`, and the root is the top-level frame.
pub open spec fn built_in(ctx: PagingContext, f: TableFrames) -> bool {
    &&& ctx.pml4_phys_addr == f.pml4
    &&& ctx.tables@.len() == 7
    &&& forall|k: int|
        0 <= k < 7 ==> (#[trigger] ctx.tables@[k]).phys == frame_seq(f)[k]
            && ctx.tables@[k].entries@ == expected_entries(f, k)
}

/// A node with all 512 entries zero, at `phys`.
pub fn empty_table(phys: u64) -> (r: PageTable)
    ensures
        r.phys == phys,
        r.entries@ == Seq::new(ENTRY_COUNT as nat, |i: int| 0u64),
{
    let mut entries: Vec<u64> = Vec::new();
    let mut i: usize = 0;
    while i < ENTRY_COUNT
        invariant
            i <= ENTRY_COUNT,
            entries@ == Seq::new(i as nat, |j: int| 0u64),
        decreases ENTRY_COUNT - i,
    {
        entries.push(0);
        i = i + 1;
        assert(entries@ =~= Seq::new(i as nat, |j: int| 0u64));
    }
    PageTable { phys, entries }
}

/// Points entry `index` of `table` at the node in frame `child`, present and
/// writable; the other entries stay as they were.
pub fn link(table: &mut PageTable, index: usize, child: u64)
    requires
        index < old(table).entries@.len(),
        frame_ok(child),
    ensures
        final(table).phys == old(table).phys,
        final(table).entries@ == old(table).entries@.update(index as int, (child + LINK_FLAGS) as u64),
{
    table.entries.set(index, child + LINK_FLAGS);
}

/// A leaf node at `phys` whose entry `i` maps huge page `first + i`.
pub fn leaf_table(phys: u64, first: u64) -> (r: PageTable)
    requires
        first <= ENTRY_COUNT,
    ensures
        r.phys == phys,
        r.entries@ == leaf_entries(first as int),
{
    let mut entries: Vec<u64> = Vec::new();
    let mut i: u64 = 0;
    while i < ENTRY_COUNT as u64
        invariant
            i <= ENTRY_COUNT,
            first <= ENTRY_COUNT,
            entries@ == leaf_entries(first as int).subrange(0, i as int),
        decreases ENTRY_COUNT - i,
    {
        entries.push((first + i) * HUGE_PAGE_SIZE + LEAF_FLAGS);
        i = i + 1;
        assert(entries@ =~= leaf_entries(first as int).subrange(0, i as int));
    }
    assert(entries@ =~= leaf_entries(first as int));
    PageTable { phys, entries }
}

/// Builds the hierarchy in the frames `f`: the top-level node links the
/// identity directory at entry 0 and the higher-half directory at
/// `KERNEL_PML4_INDEX`; each directory links its two leaf nodes at entries 0
/// and 1; the leaf nodes map the first and second GiB with huge pages.
pub fn setup_paging(f: &TableFrames) -> (r: PagingContext)
    requires
        frames_ok(*f),
    ensures
        built_in(r, *f),
{
    assert(frame_ok(frame_seq(*f)[1]) && frame_ok(frame_seq(*f)[2]) && frame_ok(frame_seq(*f)[3])
        && frame_ok(frame_seq(*f)[4]) && frame_ok(frame_seq(*f)[5]) && frame_ok(frame_seq(*f)[6]));
    let mut pml4 = empty_table(f.pml4);
    link(&mut pml4, 0, f.pdpt_identity);
    link(&mut pml4, KERNEL_PML4_INDEX, f.pdpt_higher_half);
    let mut pdpt_id = empty_table(f.pdpt_identity);
    link(&mut pdpt_id, 0, f.pd_identity_low);
    link(&mut pdpt_id, 1, f.pd_identity_high);
    let mut pdpt_hh = empty_table(f.pdpt_higher_half);
    link(&mut pdpt_hh, 0, f.pd_higher_half_low);
    link(&mut pdpt_hh, 1, f.pd_higher_half_high);
    let pd0 = leaf_table(f.pd_identity_low, 0);
    let pd1 = leaf_table(f.pd_identity_high, ENTRY_COUNT as u64);
    let pd_hh0 = leaf_table(f.pd_higher_half_low, 0);
    let pd_hh1 = leaf_table(f.pd_higher_half_high, ENTRY_COUNT as u64);
    assert(pml4.entries@ =~= expected_entries(*f, 0));
    assert(pdpt_id.entries@ =~= expected_entries(*f, 1));
    assert(pdpt_hh.entries@ =~= expected_entries(*f, 2));
    let tables = vec![pml4, pdpt_id, pdpt_hh, pd0, pd1, pd_hh0, pd_hh1];
    PagingContext { pml4_phys_addr: f.pml4, tables }
}

/// The entries of the node at physical address `phys`, or none when no node
/// of `ctx` sits there.
pub open spec fn table_at(ctx: PagingContext, phys: int) -> Seq<u64> {
    if exists|k: int| 0 <= k < ctx.tables@.len() && ctx.tables@[k].phys == phys {
        let k = choose|k: int| 0 <= k < ctx.tables@.len() && ctx.tables@[k].phys == phys;
        ctx.tables@[k].entries@
    } else {
        Seq::empty()
    }
}

/// The entry's present flag is set.
pub open spec fn is_present(e: u64) -> bool {
    e % 2 == 1
}

/// The entry's writable flag is set.
pub open spec fn is_writable(e: u64) -> bool {
    e / 2 % 2 == 1
}

/// The entry's huge-page flag is set.
pub open spec fn is_huge(e: u64) -> bool {
    e / 0x80 % 2 == 1
}

/// Physical address held in bits 51:12 of an entry.
pub open spec fn small_frame(e: u64) -> int {
    e / 0x1000 % 0x100_0000_0000 * 0x1000
}

/// Physical address held in bits 51:21 of a huge 2 MiB entry.
pub open spec fn huge_frame(e: u64) -> int {
    e / 0x20_0000 % 0x8000_0000 * 0x20_0000
}

/// Physical address held in bits 51:30 of a huge 1 GiB entry.
pub open spec fn giant_frame(e: u64) -> int {
    e / 0x4000_0000 % 0x40_0000 * 0x4000_0000
}

/// The entry at `i` of node `t`, or zero (not present) past its end.
pub open spec fn entry_at(t: Seq<u64>, i: int) -> u64 {
    if 0 <= i < t.len() {
        t[i]
    } else {
        0
    }
}

/// Hardware translation of the 48-bit linear address `va` through `ctx`: the
/// physical address it reaches and the entry that maps it, or none when the
/// walk meets an entry that is not present.
#[verifier::opaque]
pub open spec fn translate(ctx: PagingContext, va: int) -> Option<(int, u64)> {
    let e4 = entry_at(table_at(ctx, ctx.pml4_phys_addr as int), va / 0x80_0000_0000 % 512);
    let e3 = entry_at(table_at(ctx, small_frame(e4)), va / 0x4000_0000 % 512);
    let e2 = entry_at(table_at(ctx, small_frame(e3)), va / 0x20_0000 % 512);
    let e1 = entry_at(table_at(ctx, small_frame(e2)), va / 0x1000 % 512);
    if !is_present(e4) || !is_present(e3) {
        None
    } else if is_huge(e3) {
        Some((giant_frame(e3) + va % 0x4000_0000, e3))
    } else if !is_present(e2) {
        None
    } else if is_huge(e2) {
        Some((huge_frame(e2) + va % 0x20_0000, e2))
    } else if !is_present(e1) {
        None
    } else {
        Some((small_frame(e1) + va % 0x1000, e1))
    }
}

/// The 48-bit linear address that the canonical address `va` stands for.
pub open spec fn linear(va: int) -> int {
    va % 0x1_0000_0000_0000
}

/// Size in bytes of the mapped physical window.
pub open spec fn window() -> int {
    0x8000_0000
}

/// How the built hierarchy translates a 48-bit linear address: the low
/// window is mapped to itself, the same window at the linear image of the
/// higher-half base is mapped to the same physical addresses through equal
/// entries, and nothing else is mapped.
pub open spec fn expected_translation(va: int) -> Option<(int, u64)> {
    let hh = linear(HIGHER_HALF_BASE as int);
    if 0 <= va < window() {
        Some((va, huge_entry(va / HUGE_PAGE_SIZE as int)))
    } else if hh <= va < hh + window() {
        Some((va - hh, huge_entry((va - hh) / HUGE_PAGE_SIZE as int)))
    } else {
        None
    }
}

proof fn lemma_table_at(ctx: PagingContext, f: TableFrames, k: int)
    requires
        built_in(ctx, f),
        frames_ok(f),
        0 <= k < 7,
    ensures
        table_at(ctx, frame_seq(f)[k] as int) == expected_entries(f, k),
{
    assert(ctx.tables@[k].phys == frame_seq(f)[k]);
    let j = choose|j: int| 0 <= j < ctx.tables@.len() && ctx.tables@[j].phys == frame_seq(f)[k];
    assert(ctx.tables@[j].phys == frame_seq(f)[j]);
}

proof fn lemma_link_entry(a: u64)
    requires
        frame_ok(a),
    ensures
        is_present((a + LINK_FLAGS) as u64),
        !is_huge((a + LINK_FLAGS) as u64),
        small_frame((a + LINK_FLAGS) as u64) == a,
{
}

proof fn lemma_huge_entry(n: int)
    requires
        0 <= n < 1024,
    ensures
        is_present(huge_entry(n)),
        is_writable(huge_entry(n)),
        is_huge(huge_entry(n)),
        huge_frame(huge_entry(n)) == n * HUGE_PAGE_SIZE,
{
}

proof fn lemma_nodes(ctx: PagingContext, f: TableFrames)
    requires
        built_in(ctx, f),
        frames_ok(f),
    ensures
        table_at(ctx, ctx.pml4_phys_addr as int) == directory_entries(
            0,
            f.pdpt_identity,
            KERNEL_PML4_INDEX as int,
            f.pdpt_higher_half,
        ),
        table_at(ctx, f.pdpt_identity as int) == directory_entries(
            0,
            f.pd_identity_low,
            1,
            f.pd_identity_high,
        ),
        table_at(ctx, f.pdpt_higher_half as int) == directory_entries(
            0,
            f.pd_higher_half_low,
            1,
            f.pd_higher_half_high,
        ),
        table_at(ctx, f.pd_identity_low as int) == leaf_entries(0),
        table_at(ctx, f.pd_identity_high as int) == leaf_entries(ENTRY_COUNT as int),
        table_at(ctx, f.pd_higher_half_low as int) == leaf_entries(0),
        table_at(ctx, f.pd_higher_half_high as int) == leaf_entries(ENTRY_COUNT as int),
        small_frame((f.pdpt_identity + LINK_FLAGS) as u64) == f.pdpt_identity,
        small_frame((f.pdpt_higher_half + LINK_FLAGS) as u64) == f.pdpt_higher_half,
        small_frame((f.pd_identity_low + LINK_FLAGS) as u64) == f.pd_identity_low,
        small_frame((f.pd_identity_high + LINK_FLAGS) as u64) == f.pd_identity_high,
        small_frame((f.pd_higher_half_low + LINK_FLAGS) as u64) == f.pd_higher_half_low,
        small_frame((f.pd_higher_half_high + LINK_FLAGS) as u64) == f.pd_higher_half_high,
        is_present((f.pdpt_identity + LINK_FLAGS) as u64),
        is_present((f.pdpt_higher_half + LINK_FLAGS) as u64),
        is_present((f.pd_identity_low + LINK_FLAGS) as u64),
        is_present((f.pd_identity_high + LINK_FLAGS) as u64),
        is_present((f.pd_higher_half_low + LINK_FLAGS) as u64),
        is_present((f.pd_higher_half_high + LINK_FLAGS) as u64),
        !is_huge((f.pd_identity_low + LINK_FLAGS) as u64),
        !is_huge((f.pd_identity_high + LINK_FLAGS) as u64),
        !is_huge((f.pd_higher_half_low + LINK_FLAGS) as u64),
        !is_huge((f.pd_higher_half_high + LINK_FLAGS) as u64),
{
    lemma_table_at(ctx, f, 0);
    lemma_table_at(ctx, f, 1);
    lemma_table_at(ctx, f, 2);
    lemma_table_at(ctx, f, 3);
    lemma_table_at(ctx, f, 4);
    lemma_table_at(ctx, f, 5);
    lemma_table_at(ctx, f, 6);
    assert(frame_ok(frame_seq(f)[1]) && frame_ok(frame_seq(f)[2]) && frame_ok(frame_seq(f)[3])
        && frame_ok(frame_seq(f)[4]) && frame_ok(frame_seq(f)[5]) && frame_ok(frame_seq(f)[6]));
    lemma_link_entry(f.pdpt_identity);
    lemma_link_entry(f.pdpt_higher_half);
    lemma_link_entry(f.pd_identity_low);
    lemma_link_entry(f.pd_identity_high);
    lemma_link_entry(f.pd_higher_half_low);
    lemma_link_entry(f.pd_higher_half_high);
}

/// Translation of `va` when the walk reaches, through present link entries,
/// a leaf node whose entries map huge pages from number `first` on.
proof fn lemma_leaf_walk(ctx: PagingContext, va: int, e4: u64, e3: u64, first: int)
    requires
        0 <= va,
        e4 == entry_at(table_at(ctx, ctx.pml4_phys_addr as int), va / 0x80_0000_0000 % 512),
        e3 == entry_at(table_at(ctx, small_frame(e4)), va / 0x4000_0000 % 512),
        is_present(e4),
        is_present(e3),
        !is_huge(e3),
        table_at(ctx, small_frame(e3)) == leaf_entries(first),
        first == (va / 0x4000_0000 % 512) * 512,
        first == 0 || first == 512,
    ensures
        translate(ctx, va) == Some(
            (
                (first + va / 0x20_0000 % 512) * HUGE_PAGE_SIZE + va % 0x20_0000,
                huge_entry(first + va / 0x20_0000 % 512),
            ),
        ),
{
    reveal(translate);
    let i2 = va / 0x20_0000 % 512;
    let n = first + i2;
    lemma_huge_entry(n);
    assert(entry_at(table_at(ctx, small_frame(e3)), i2) == huge_entry(n));
}

/// Translation of `va` when the walk meets an entry that is not present at
/// the top or the directory level.
proof fn lemma_unmapped_walk(ctx: PagingContext, va: int, e4: u64, e3: u64)
    requires
        e4 == entry_at(table_at(ctx, ctx.pml4_phys_addr as int), va / 0x80_0000_0000 % 512),
        e3 == entry_at(table_at(ctx, small_frame(e4)), va / 0x4000_0000 % 512),
        !is_present(e4) || !is_present(e3),
    ensures
        translate(ctx, va) is None,
{
    reveal(translate);
}

/// The hierarchy maps every 48-bit linear address as `expected_translation`
/// says: physical page `P` of the low 2 GiB is reached at `P` and at the
/// higher-half base plus `P`, through entries with equal flags, and no other
/// address below `2^48` is mapped.
pub proof fn lemma_mapping(ctx: PagingContext, f: TableFrames, va: int)
    requires
        frames_ok(f),
        built_in(ctx, f),
        0 <= va < 0x1_0000_0000_0000,
    ensures
        translate(ctx, va) == expected_translation(va),
{
    lemma_nodes(ctx, f);
    assert(linear(HIGHER_HALF_BASE as int) == 0x8000_0000_0000);
    let i4 = va / 0x80_0000_0000 % 512;
    let i3 = va / 0x4000_0000 % 512;
    let i2 = va / 0x20_0000 % 512;
    let t4 = table_at(ctx, ctx.pml4_phys_addr as int);
    let e4 = entry_at(t4, i4);
    let e3 = entry_at(table_at(ctx, small_frame(e4)), i3);
    if i4 == 0 && i3 < 2 {
        assert(e4 == (f.pdpt_identity + LINK_FLAGS) as u64);
        if i3 == 0 {
            assert(e3 == (f.pd_identity_low + LINK_FLAGS) as u64);
        } else {
            assert(e3 == (f.pd_identity_high + LINK_FLAGS) as u64);
        }
        lemma_leaf_walk(ctx, va, e4, e3, i3 * 512);
        assert(va < window());
        assert((i3 * 512 + i2) == va / 0x20_0000);
        assert((i3 * 512 + i2) * HUGE_PAGE_SIZE + va % 0x20_0000 == va);
    } else if i4 == 256 && i3 < 2 {
        assert(e4 == (f.pdpt_higher_half + LINK_FLAGS) as u64);
        if i3 == 0 {
            assert(e3 == (f.pd_higher_half_low + LINK_FLAGS) as u64);
        } else {
            assert(e3 == (f.pd_higher_half_high + LINK_FLAGS) as u64);
        }
        lemma_leaf_walk(ctx, va, e4, e3, i3 * 512);
        assert(0x8000_0000_0000 <= va < 0x8000_0000_0000 + window());
        assert((i3 * 512 + i2) == (va - 0x8000_0000_0000) / 0x20_0000);
        assert((i3 * 512 + i2) * HUGE_PAGE_SIZE + va % 0x20_0000 == va - 0x8000_0000_0000);
    } else if i4 == 0 || i4 == 256 {
        assert(e3 == 0);
        lemma_unmapped_walk(ctx, va, e4, e3);
    } else {
        assert(e4 == 0);
        lemma_unmapped_walk(ctx, va, e4, e3);
    }
}

/// The canonical higher-half address of physical address `p` of the window
/// and its identity address both reach `p`, through the same entry, which is
/// present, writable and huge.
pub proof fn lemma_mirror(ctx: PagingContext, f: TableFrames, p: int)
    requires
        frames_ok(f),
        built_in(ctx, f),
        0 <= p < window(),
    ensures
        translate(ctx, linear(HIGHER_HALF_BASE + p)) == translate(ctx, p),
        translate(ctx, p) == Some((p, huge_entry(p / HUGE_PAGE_SIZE as int))),
        is_present(huge_entry(p / HUGE_PAGE_SIZE as int)),
        is_writable(huge_entry(p / HUGE_PAGE_SIZE as int)),
        is_huge(huge_entry(p / HUGE_PAGE_SIZE as int)),
{
    lemma_huge_entry(p / HUGE_PAGE_SIZE as int);
    lemma_mapping(ctx, f, p);
    lemma_mapping(ctx, f, linear(HIGHER_HALF_BASE + p));
}

} // verus!
