//! The global descriptor table and the task state segment.
use vstd::prelude::*;

use crate::startup::ExitCode;
use crate::util::send::TableDescriptor;
use crate::util::sync::{InitError, InitLater, UNINIT};

verus! {

/// The number of entries the GDT contains.
pub const GDT_ENTRIES: usize = 5;

/// The size of the emergency stack, in bytes.
pub const STACK_SIZE: u64 = 2048;

/// Offset in the GDT where the kernel's code segment is.
pub const CODE_SEGMENT_OFFSET: u16 = 0x8;

/// Offset in the GDT where the TSS's system segment descriptor is.
pub const TSS_SEGMENT_OFFSET: u64 = 0x18;

/// The size of the TSS in bytes.
pub const TSS_SIZE: u16 = 104;

/// Present, available 64 bit TSS.
pub const TSS_ACCESS: u8 = 0b1000_1001;

/// The bits of a code or data segment descriptor: code / data segment, present and long
/// mode bits set, and the executable bit for a code segment.
pub open spec fn segment_bits(code_segment: bool) -> u64 {
    (1u64 << 44u64) | (1u64 << 47u64) | (1u64 << 53u64) | (if code_segment {
        1u64 << 43u64
    } else {
        0u64
    })
}

/// A segment descriptor in the GDT.
#[derive(Debug, Clone, Copy, PartialEq, Eq, Structural)]
pub struct SegmentDescriptor(u64);

impl View for SegmentDescriptor {
    type V = u64;

    closed spec fn view(&self) -> u64 {
        self.0
    }
}

impl SegmentDescriptor {
    /// Creates either a code or a data segment depending on `code_segment`.
    pub fn new(code_segment: bool) -> (r: Self)
        ensures
            r@ == segment_bits(code_segment),
    {
        let exec: u64 = if code_segment {
            1u64 << 43u64
        } else {
            0
        };
        SegmentDescriptor((1u64 << 44u64) | (1u64 << 47u64) | (1u64 << 53u64) | exec)
    }

    /// The null descriptor.
    pub fn null() -> (r: Self)
        ensures
            r@ == 0,
    {
        SegmentDescriptor(0)
    }

    /// The raw bits of the descriptor.
    pub fn bits(&self) -> (r: u64)
        ensures
            r == self@,
    {
        self.0
    }
}

/// The 64 bit Task State Segment.
#[derive(Debug)]
pub struct Tss {
    reserved1: u32,
    /// Stack pointers used when a privilege level change occurs from low to high.
    privilege_ptrs: [u64; 3],
    reserved2: u64,
    /// The interrupt stack table.
    ist: [u64; 7],
    reserved3: u64,
    reserved4: u16,
    iomap: u16,
}

impl Tss {
    /// The interrupt stack table.
    pub closed spec fn ist_table(&self) -> Seq<u64> {
        self.ist@
    }

    /// The stack pointers for privilege level changes.
    pub closed spec fn privilege_table(&self) -> Seq<u64> {
        self.privilege_ptrs@
    }

    /// The offset of the I/O permission map.
    pub closed spec fn iomap_offset(&self) -> u16 {
        self.iomap
    }

    /// An empty TSS: every pointer null.
    pub fn empty() -> (r: Self)
        ensures
            r.ist_table() == Seq::new(7, |i: int| 0u64),
            r.privilege_table() == Seq::new(3, |i: int| 0u64),
            r.iomap_offset() == 0,
    {
        let r = Tss {
            reserved1: 0,
            privilege_ptrs: [0; 3],
            reserved2: 0,
            ist: [0; 7],
            reserved3: 0,
            reserved4: 0,
            iomap: 0,
        };
        assert(r.ist_table() =~= Seq::new(7, |i: int| 0u64));
        assert(r.privilege_table() =~= Seq::new(3, |i: int| 0u64));
        r
    }

    /// A TSS giving the first IST entry the emergency stack starting at `stack_addr`
    /// (stacks grow down, so the entry is its end), with no I/O permission map (its offset
    /// is the TSS's size).
    pub fn emergency(stack_addr: u64) -> (r: Self)
        requires
            stack_addr + STACK_SIZE <= u64::MAX,
        ensures
            r.ist_table() == Seq::new(7, |i: int| 0u64).update(0, (stack_addr + STACK_SIZE) as u64),
            r.privilege_table() == Seq::new(3, |i: int| 0u64),
            r.iomap_offset() == TSS_SIZE,
    {
        let mut tss = Tss::empty();
        tss.ist[0] = stack_addr + STACK_SIZE;
        tss.iomap = TSS_SIZE;
        assert(tss.ist_table() =~= Seq::new(7, |i: int| 0u64).update(
            0,
            (stack_addr + STACK_SIZE) as u64,
        ));
        tss
    }

    /// The IST entry `idx`.
    pub fn ist(&self, idx: usize) -> (r: u64)
        requires
            idx < 7,
        ensures
            r == self.ist_table()[idx as int],
    {
        self.ist[idx]
    }

    /// The offset of the I/O permission map.
    pub fn iomap(&self) -> (r: u16)
        ensures
            r == self.iomap_offset(),
    {
        self.iomap
    }
}

/// Stores the TSS with the emergency stack at `stack_addr` in `cell`, failing if it
/// already holds one.
pub fn setup_tss(cell: &mut InitLater<Tss>, stack_addr: u64) -> (r: ExitCode<InitError<Tss>>)
    requires
        stack_addr + STACK_SIZE <= u64::MAX,
    ensures
        old(cell).state() == UNINIT ==> r is Success,
        old(cell).state() == UNINIT ==> (final(cell).value() matches Some(t) && t.ist_table() == Seq::new(7, |i: int| 0u64).update(
            0,
            (stack_addr + STACK_SIZE) as u64,
        ) && t.iomap_offset() == TSS_SIZE),
        old(cell).state() != UNINIT ==> (r matches ExitCode::Error(e) && e.err_state() == old(
            cell,
        ).state() && final(cell).value() == old(cell).value()),
{
    let tss = Tss::emergency(stack_addr);
    match cell.init(tss) {
        Ok(_) => ExitCode::Success,
        Err(e) => ExitCode::Error(e),
    }
}

/// The 64 bit System Segment Descriptor of the TSS.
#[derive(Debug, Clone, Copy)]
pub struct SystemSegmentDescriptor {
    /// The size of the TSS - 1
    limit: u16,
    /// The first 16 bits of the pointer
    offset_very_low: u16,
    /// The second 8 bits of the pointer
    offset_low: u8,
    /// The access byte, just some flags
    access: u8,
    /// Extra flags and limit bits
    flags: u8,
    /// The middle 8 bits of the pointer
    offset_medium: u8,
    /// The last 32 bits of the pointer
    offset_high: u32,
    reserved: u32,
}

/// The TSS address held by the two GDT entries a system segment descriptor takes, put
/// back together from its four pieces.
pub open spec fn tss_base(low: u64, high: u64) -> u64 {
    ((low >> 16u64) & 0xFFFF) | (((low >> 32u64) & 0xFF) << 16u64) | (((low >> 56u64) & 0xFF)
        << 24u64) | ((high & 0xFFFF_FFFF) << 32u64)
}

/// The limit held by the low GDT entry of a system segment descriptor.
pub open spec fn tss_limit(low: u64) -> u64 {
    low & 0xFFFF
}

/// The access byte held by the low GDT entry of a system segment descriptor.
pub open spec fn tss_access(low: u64) -> u64 {
    (low >> 40u64) & 0xFF
}

impl SystemSegmentDescriptor {
    /// Creates the descriptor of the TSS at `tss_addr`.
    fn new_tss(tss_addr: u64) -> (r: Self)
        ensures
            r.limit == TSS_SIZE - 1,
            r.offset_very_low == tss_addr as u16,
            r.offset_low == (tss_addr >> 16u64) as u8,
            r.access == TSS_ACCESS,
            r.flags == 0,
            r.offset_medium == (tss_addr >> 24u64) as u8,
            r.offset_high == (tss_addr >> 32u64) as u32,
            r.reserved == 0,
    {
        SystemSegmentDescriptor {
            limit: TSS_SIZE - 1,
            offset_very_low: tss_addr as u16,
            offset_low: (tss_addr >> 16u64) as u8,
            access: TSS_ACCESS,
            flags: 0,
            offset_medium: (tss_addr >> 24u64) as u8,
            offset_high: (tss_addr >> 32u64) as u32,
            reserved: 0,
        }
    }

    /// The two GDT entries the descriptor takes, low one first, as laid out in memory.
    fn halves(&self) -> (r: (SegmentDescriptor, SegmentDescriptor))
        ensures
            r.0@ == (self.limit as u64) | ((self.offset_very_low as u64) << 16u64) | ((
            self.offset_low as u64) << 32u64) | ((self.access as u64) << 40u64) | ((
            self.flags as u64) << 48u64) | ((self.offset_medium as u64) << 56u64),
            r.1@ == (self.offset_high as u64) | ((self.reserved as u64) << 32u64),
    {
        let low = (self.limit as u64) | ((self.offset_very_low as u64) << 16u64) | ((
        self.offset_low as u64) << 32u64) | ((self.access as u64) << 40u64) | ((self.flags as u64)
            << 48u64) | ((self.offset_medium as u64) << 56u64);
        let high = (self.offset_high as u64) | ((self.reserved as u64) << 32u64);
        (SegmentDescriptor(low), SegmentDescriptor(high))
    }
}

/// The two GDT entries of the descriptor of the TSS at `tss_addr`: they hold the TSS's
/// address, its size minus one as the limit, and the access byte of an available 64 bit
/// TSS.
pub fn tss_entries(tss_addr: u64) -> (r: (SegmentDescriptor, SegmentDescriptor))
    ensures
        tss_base(r.0@, r.1@) == tss_addr,
        tss_limit(r.0@) == TSS_SIZE - 1,
        tss_access(r.0@) == TSS_ACCESS,
        r.1@ >> 32u64 == 0,
{
    let d = SystemSegmentDescriptor::new_tss(tss_addr);
    let r = d.halves();
    let low = r.0.0;
    let high = r.1.0;
    let a = tss_addr;
    let l = (TSS_SIZE - 1) as u64;
    let acc = TSS_ACCESS as u64;
    assert(low == l | (((a as u16) as u64) << 16u64) | ((((a >> 16u64) as u8) as u64) << 32u64)
        | (acc << 40u64) | (0u64 << 48u64) | ((((a >> 24u64) as u8) as u64) << 56u64));
    assert(high == ((a >> 32u64) as u32) as u64 | (0u64 << 32u64));
    assert(tss_base(low, high) == a && tss_limit(low) == l && tss_access(low) == acc && high
        >> 32u64 == 0) by (bit_vector)
        requires
            l == 103,
            acc == 0b1000_1001,
            low == l | (((a as u16) as u64) << 16u64) | ((((a >> 16u64) as u8) as u64) << 32u64) | (
            acc << 40u64) | (0u64 << 48u64) | ((((a >> 24u64) as u8) as u64) << 56u64),
            high == ((a >> 32u64) as u32) as u64 | (0u64 << 32u64),
    ;
    r
}

/// The Global Descriptor Table.
#[derive(Debug)]
pub struct Gdt([SegmentDescriptor; GDT_ENTRIES]);

impl View for Gdt {
    type V = Seq<u64>;

    closed spec fn view(&self) -> Seq<u64> {
        self.0@.map_values(|d: SegmentDescriptor| d@)
    }
}

impl Gdt {
    /// The GDT of the kernel: a null entry, the code segment (at `CODE_SEGMENT_OFFSET`), a
    /// data segment, and the two entries of the TSS's descriptor (at `TSS_SEGMENT_OFFSET`)
    /// when there is a TSS, at `tss_addr`; null entries otherwise.
    pub fn new(tss_addr: Option<u64>) -> (r: Self)
        ensures
            r@.len() == GDT_ENTRIES,
            r@[0] == 0,
            r@[1] == segment_bits(true),
            r@[2] == segment_bits(false),
            match tss_addr {
                None => r@[3] == 0 && r@[4] == 0,
                Some(a) => tss_base(r@[3], r@[4]) == a && tss_limit(r@[3]) == TSS_SIZE - 1
                    && tss_access(r@[3]) == TSS_ACCESS,
            },
    {
        let mut entries = [SegmentDescriptor::null();GDT_ENTRIES];
        entries[1] = SegmentDescriptor::new(true);
        entries[2] = SegmentDescriptor::new(false);
        match tss_addr {
            Some(a) => {
                let (low, high) = tss_entries(a);
                entries[3] = low;
                entries[4] = high;
            },
            None => {},
        }
        Gdt(entries)
    }

    /// The entry `idx`.
    pub fn entry(&self, idx: usize) -> (r: SegmentDescriptor)
        requires
            idx < GDT_ENTRIES,
        ensures
            r@ == self@[idx as int],
    {
        self.0[idx]
    }
}

/// The value the `lgdt` instruction loads the GDT from.
pub type GDTDescriptor = TableDescriptor<Gdt>;

/// Why loading the TSS failed.
#[derive(Debug, Clone, Copy, PartialEq, Eq, Structural)]
pub enum LoadTssError {
    /// The GDT isn't initialised.
    NoGdt,
    /// The offset stored in the task register doesn't match `TSS_SEGMENT_OFFSET`.
    BadStore(u64),
}

/// The result of loading the TSS: an error without a GDT, otherwise success exactly
/// when the task register reads back `TSS_SEGMENT_OFFSET`.
pub fn load_tss_result(gdt_init: bool, stored_offset: u64) -> (r: ExitCode<LoadTssError>)
    ensures
        !gdt_init ==> r == ExitCode::<LoadTssError>::Error(LoadTssError::NoGdt),
        gdt_init && stored_offset == TSS_SEGMENT_OFFSET ==> r is Success,
        gdt_init && stored_offset != TSS_SEGMENT_OFFSET ==> r == ExitCode::<LoadTssError>::Error(
            LoadTssError::BadStore(stored_offset),
        ),
{
    if !gdt_init {
        return ExitCode::Error(LoadTssError::NoGdt);
    }
    if stored_offset != TSS_SEGMENT_OFFSET {
        ExitCode::Error(LoadTssError::BadStore(stored_offset))
    } else {
        ExitCode::Success
    }
}

} // verus!
