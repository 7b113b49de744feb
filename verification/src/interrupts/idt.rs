//! The interrupt descriptor table, its entries, and what the error codes of page faults
//! and general protection faults say.
use vstd::prelude::*;

use crate::interrupts::pic::IRQ_START;

verus! {

/// Present = 1, dpl = 0, must be zero = 0, gate type = interrupt.
pub const INT_GATE_FLAGS: u8 = 0b1_00_0_1111;

/// The interrupt stack frame pushed by the CPU.
#[derive(Debug, Clone, Copy, PartialEq, Eq, Structural)]
pub struct IntStackFrame {
    pub ip: u64,
    pub cs: u64,
    pub flags: u64,
    pub sp: u64,
    pub ss: u64,
}

/// An entry in the IDT.
#[derive(Debug, Clone, Copy)]
pub struct InterruptDescriptor {
    /// Offset bits 0..15
    offset_low: u16,
    /// The segment selector in the GDT
    selector: u16,
    /// The offset in the IST
    ist: u8,
    /// The descriptor kind, privilege level and presence flags
    attributes: u8,
    /// Offset bits 16..31
    offset_middle: u16,
    /// Offset bits 32..63
    offset_high: u32,
    reserved: u32,
}

/// The abstract contents of an IDT entry: the handler it points to, its code segment
/// selector, its IST index, its attributes and its reserved bits.
pub struct DescriptorView {
    pub ptr: u64,
    pub selector: u16,
    pub ist: u8,
    pub attributes: u8,
    pub reserved: u32,
}

/// The pointer split over the offset fields of a descriptor, put back together.
pub open spec fn joined_ptr(low: u16, middle: u16, high: u32) -> u64 {
    (low as u64) | ((middle as u64) << 16u64) | ((high as u64) << 32u64)
}

impl View for InterruptDescriptor {
    type V = DescriptorView;

    closed spec fn view(&self) -> DescriptorView {
        DescriptorView {
            ptr: joined_ptr(self.offset_low, self.offset_middle, self.offset_high),
            selector: self.selector,
            ist: self.ist,
            attributes: self.attributes,
            reserved: self.reserved,
        }
    }
}

/// The view of a present interrupt gate to `ptr` with code segment `selector`, using the
/// IST entry `ist` (only its low 3 bits are kept, the rest are reserved).
pub open spec fn gate_view(ptr: u64, ist: u8, selector: u16) -> DescriptorView {
    DescriptorView { ptr, selector, ist: ist & 7u8, attributes: INT_GATE_FLAGS, reserved: 0 }
}

/// The view of an empty (not present) entry.
pub open spec fn empty_view() -> DescriptorView {
    DescriptorView { ptr: 0, selector: 0, ist: 0, attributes: 0, reserved: 0 }
}

impl InterruptDescriptor {
    /// An empty, not present entry.
    pub fn empty() -> (r: Self)
        ensures
            r@ == empty_view(),
    {
        let r = InterruptDescriptor {
            offset_low: 0,
            selector: 0,
            ist: 0,
            attributes: 0,
            offset_middle: 0,
            offset_high: 0,
            reserved: 0,
        };
        assert(joined_ptr(0, 0, 0) == 0) by (bit_vector);
        r
    }

    /// Returns a new descriptor using `offset_ptr` as its handler, `ist` for the IST (only
    /// its low 3 bits are kept, the rest are reserved) and `selector` as the code segment.
    pub fn new(offset_ptr: u64, ist: u8, selector: u16) -> (r: Self)
        ensures
            r@ == gate_view(offset_ptr, ist, selector),
    {
        let low = offset_ptr as u16;
        let middle = (offset_ptr >> 16u64) as u16;
        let high = (offset_ptr >> 32u64) as u32;
        assert(joined_ptr(low, middle, high) == offset_ptr) by (bit_vector)
            requires
                low == offset_ptr as u16,
                middle == (offset_ptr >> 16u64) as u16,
                high == (offset_ptr >> 32u64) as u32,
        ;
        InterruptDescriptor {
            selector,
            offset_low: low,
            offset_middle: middle,
            offset_high: high,
            ist: ist & 0b111,
            attributes: INT_GATE_FLAGS,
            reserved: 0,
        }
    }

    /// Returns the descriptor's pointer / offset.
    pub fn ptr(&self) -> (r: u64)
        ensures
            r == self@.ptr,
    {
        let mut ptr = self.offset_low as u64;
        ptr = ptr | ((self.offset_middle as u64) << 16u64);
        ptr = ptr | ((self.offset_high as u64) << 32u64);
        ptr
    }

    /// The IST index of the descriptor.
    pub fn ist(&self) -> (r: u8)
        ensures
            r == self@.ist,
    {
        self.ist
    }

    /// The code segment selector of the descriptor.
    pub fn selector(&self) -> (r: u16)
        ensures
            r == self@.selector,
    {
        self.selector
    }
}

/// A descriptor created for a handler points back to it, and keeps no more than three
/// bits of its IST index.
pub proof fn lemma_descriptor_round_trip(ptr: u64, ist: u8, selector: u16)
    ensures
        gate_view(ptr, ist, selector).ptr == ptr,
        gate_view(ptr, ist, selector).ist < 8,
{
    assert(ist & 7u8 < 8) by (bit_vector);
}

/// The addresses of the interrupt handlers the IDT points to.
pub struct IdtHandlers {
    pub divide_error: u64,
    pub debug: u64,
    pub nmi: u64,
    pub breakpoint: u64,
    pub overflow: u64,
    pub invalid_opcode: u64,
    pub device_not_available: u64,
    pub double_fault: u64,
    pub gp_fault: u64,
    pub page_fault: u64,
    pub timer: u64,
    pub keyboard: u64,
    pub floppy: u64,
    pub spurious: u64,
    pub rtc: u64,
}

/// The handler and IST index of entry `id` of the IDT, if it has one. Double faults and
/// page faults get their own stack, the first IST entry.
pub open spec fn idt_entry(h: IdtHandlers, id: int) -> Option<(u64, u8)> {
    if id == 0 {
        Some((h.divide_error, 0))
    } else if id == 1 {
        Some((h.debug, 0))
    } else if id == 2 {
        Some((h.nmi, 0))
    } else if id == 3 {
        Some((h.breakpoint, 0))
    } else if id == 5 {
        Some((h.overflow, 0))
    } else if id == 6 {
        Some((h.invalid_opcode, 0))
    } else if id == 7 {
        Some((h.device_not_available, 0))
    } else if id == 8 {
        Some((h.double_fault, 1))
    } else if id == 13 {
        Some((h.gp_fault, 0))
    } else if id == 14 {
        Some((h.page_fault, 1))
    } else if id == IRQ_START + 0 {
        Some((h.timer, 0))
    } else if id == IRQ_START + 1 {
        Some((h.keyboard, 0))
    } else if id == IRQ_START + 6 {
        Some((h.floppy, 0))
    } else if id == IRQ_START + 7 {
        Some((h.spurious, 0))
    } else if id == IRQ_START + 8 {
        Some((h.rtc, 0))
    } else if id == IRQ_START + 15 {
        Some((h.spurious, 0))
    } else {
        None
    }
}

/// Each exception and IRQ vector goes to its own handler: vector 0 to the divide error
/// handler, 1 to debug, 2 to the NMI, 3 to breakpoint, 5 to overflow, 6 to invalid opcode,
/// 7 to device not available, 8 to the double fault (on the first IST stack), 13 to the
/// general protection fault, 14 to the page fault (first IST stack), IRQs 0, 1, 6, 8 (from
/// vector 32) to the timer, keyboard, floppy and RTC, and IRQs 7 and 15 to the spurious
/// interrupt handler; vectors 4, 9 to 12 and 15 to 31 have none.
pub proof fn lemma_idt_vectors(h: IdtHandlers)
    ensures
        idt_entry(h, 0) == Some((h.divide_error, 0u8)),
        idt_entry(h, 1) == Some((h.debug, 0u8)),
        idt_entry(h, 2) == Some((h.nmi, 0u8)),
        idt_entry(h, 3) == Some((h.breakpoint, 0u8)),
        idt_entry(h, 5) == Some((h.overflow, 0u8)),
        idt_entry(h, 6) == Some((h.invalid_opcode, 0u8)),
        idt_entry(h, 7) == Some((h.device_not_available, 0u8)),
        idt_entry(h, 8) == Some((h.double_fault, 1u8)),
        idt_entry(h, 13) == Some((h.gp_fault, 0u8)),
        idt_entry(h, 14) == Some((h.page_fault, 1u8)),
        idt_entry(h, 32) == Some((h.timer, 0u8)),
        idt_entry(h, 33) == Some((h.keyboard, 0u8)),
        idt_entry(h, 38) == Some((h.floppy, 0u8)),
        idt_entry(h, 39) == Some((h.spurious, 0u8)),
        idt_entry(h, 40) == Some((h.rtc, 0u8)),
        idt_entry(h, 47) == Some((h.spurious, 0u8)),
        idt_entry(h, 4) is None,
        forall|v: int| 9 <= v <= 12 || 15 <= v <= 31 ==> #[trigger] idt_entry(h, v) is None,
{
}

/// The Interrupt Descriptor Table.
pub struct Idt {
    entries: [InterruptDescriptor; 256],
}

impl View for Idt {
    type V = Seq<DescriptorView>;

    closed spec fn view(&self) -> Seq<DescriptorView> {
        self.entries@.map_values(|d: InterruptDescriptor| d@)
    }
}

impl Idt {
    /// A table with every entry empty.
    pub fn invalid() -> (r: Self)
        ensures
            r@.len() == 256,
            forall|i: int| 0 <= i < 256 ==> #[trigger] r@[i] == empty_view(),
    {
        let e = InterruptDescriptor::empty();
        Idt { entries: [e; 256] }
    }

    /// Creates a table with all its required entries set to `handlers`, with `cs` as their
    /// code segment. This doesn't load it.
    pub fn new(handlers: &IdtHandlers, cs: u16) -> (r: Self)
        ensures
            r@.len() == 256,
            forall|i: int|
                0 <= i < 256 ==> #[trigger] r@[i] == match idt_entry(*handlers, i) {
                    Some((p, ist)) => gate_view(p, ist, cs),
                    None => empty_view(),
                },
            r@[0] == gate_view(handlers.divide_error, 0, cs),
            r@[1] == gate_view(handlers.debug, 0, cs),
            r@[2] == gate_view(handlers.nmi, 0, cs),
            r@[3] == gate_view(handlers.breakpoint, 0, cs),
            r@[5] == gate_view(handlers.overflow, 0, cs),
            r@[6] == gate_view(handlers.invalid_opcode, 0, cs),
            r@[7] == gate_view(handlers.device_not_available, 0, cs),
            r@[8] == gate_view(handlers.double_fault, 1, cs),
            r@[13] == gate_view(handlers.gp_fault, 0, cs),
            r@[14] == gate_view(handlers.page_fault, 1, cs),
            r@[32] == gate_view(handlers.timer, 0, cs),
            r@[33] == gate_view(handlers.keyboard, 0, cs),
            r@[38] == gate_view(handlers.floppy, 0, cs),
            r@[39] == gate_view(handlers.spurious, 0, cs),
            r@[40] == gate_view(handlers.rtc, 0, cs),
            r@[47] == gate_view(handlers.spurious, 0, cs),
            r@[4] == empty_view() && r@[9] == empty_view() && r@[15] == empty_view(),
    {
        proof {
            lemma_idt_vectors(*handlers);
        }
        let mut idt = Idt::invalid();
        idt.set_handler(0, None, handlers.divide_error, cs);
        idt.set_handler(1, None, handlers.debug, cs);
        idt.set_handler(2, None, handlers.nmi, cs);
        idt.set_handler(3, None, handlers.breakpoint, cs);
        idt.set_handler(5, None, handlers.overflow, cs);
        idt.set_handler(6, None, handlers.invalid_opcode, cs);
        idt.set_handler(7, None, handlers.device_not_available, cs);
        idt.set_handler(8, Some(1), handlers.double_fault, cs);
        idt.set_handler(13, None, handlers.gp_fault, cs);
        idt.set_handler(14, Some(1), handlers.page_fault, cs);
        let irq = IRQ_START as usize;
        idt.set_handler(irq + 0, None, handlers.timer, cs);
        idt.set_handler(irq + 1, None, handlers.keyboard, cs);
        idt.set_handler(irq + 6, None, handlers.floppy, cs);
        idt.set_handler(irq + 7, None, handlers.spurious, cs);
        idt.set_handler(irq + 8, None, handlers.rtc, cs);
        idt.set_handler(irq + 15, None, handlers.spurious, cs);
        idt
    }

    /// Sets the table's entry `entry_id` to point to `handler`, using `ist` for the IST
    /// (none meaning 0).
    pub fn set_handler(&mut self, entry_id: usize, ist: Option<u8>, handler: u64, cs: u16)
        requires
            entry_id < 256,
        ensures
            final(self)@ == old(self)@.update(
                entry_id as int,
                gate_view(
                    handler,
                    match ist {
                        Some(i) => i,
                        None => 0,
                    },
                    cs,
                ),
            ),
    {
        let i = match ist {
            Some(i) => i,
            None => 0,
        };
        self.entries[entry_id] = InterruptDescriptor::new(handler, i, cs);
        assert(self@ =~= old(self)@.update(entry_id as int, gate_view(handler, i, cs)));
    }

    /// The entry `idx` of the table.
    pub fn entry(&self, idx: usize) -> (r: InterruptDescriptor)
        requires
            idx < 256,
        ensures
            r@ == self@[idx as int],
    {
        self.entries[idx]
    }
}

/// Returns `true` if bit `bit` in `code` is set.
pub fn bit_set(code: u64, bit: u64) -> (r: bool)
    requires
        bit < 64,
    ensures
        r == (code & (1u64 << bit) != 0),
{
    let r = code == code | (1u64 << bit);
    assert(r == (code & (1u64 << bit) != 0)) by (bit_vector)
        requires
            r == (code == code | (1u64 << bit)),
            bit < 64,
    ;
    r
}

/// What a page fault's error code says: whether the access was a write or a read, and
/// whether a page protection was violated or the page wasn't present.
pub fn pf_errcode(errcode: u64) -> (r: (&'static str, &'static str))
    ensures
        r.0@ == (if errcode & 2 != 0 {
            "Wrote"@
        } else {
            "Read"@
        }),
        r.1@ == (if errcode & 1 != 0 {
            "Page-protection Violation"@
        } else {
            "Non-present page"@
        }),
{
    assert(1u64 << 1u64 == 2 && 1u64 << 0u64 == 1) by (bit_vector);
    let rw = if bit_set(errcode, 1) {
        "Wrote"
    } else {
        "Read"
    };
    let cause = if bit_set(errcode, 0) {
        "Page-protection Violation"
    } else {
        "Non-present page"
    };
    (rw, cause)
}

/// What a general protection fault's error code says.
pub struct GpFaultInfo {
    /// "External" or "Non-external".
    pub ext: &'static str,
    /// " null" when the selector is null, empty otherwise.
    pub null: &'static str,
    /// The table the selector refers to: "GDT", "LDT" or "IDT".
    pub gate: &'static str,
    /// The selector's index in that table.
    pub idx: u64,
}

/// What a general protection fault's error code says: whether the exception was external
/// (bit 0), whether the selector is null (no bit but bit 0 set), the table it refers to
/// (bits 1 and 2: 0 for the GDT, 2 for the LDT, the IDT otherwise) and its index (the
/// bits from 3 on).
pub fn gp_errcode(errcode: u64) -> (r: GpFaultInfo)
    ensures
        r.ext@ == (if errcode & 1 != 0 {
            "External"@
        } else {
            "Non-external"@
        }),
        r.null@ == (if errcode & !1u64 == 0 {
            " null"@
        } else {
            ""@
        }),
        r.gate@ == (if (errcode >> 1u64) & 3 == 0 {
            "GDT"@
        } else if (errcode >> 1u64) & 3 == 2 {
            "LDT"@
        } else {
            "IDT"@
        }),
        r.idx == errcode >> 3u64,
{
    assert(1u64 << 0u64 == 1) by (bit_vector);
    let ext = if bit_set(errcode, 0) {
        "External"
    } else {
        "Non-external"
    };
    let null = if errcode & !1u64 == 0 {
        " null"
    } else {
        ""
    };
    let idx = errcode >> 3u64;
    let sel = (errcode >> 1u64) & 0b11;
    let gate = if sel == 0 {
        "GDT"
    } else if sel == 2 {
        "LDT"
    } else {
        "IDT"
    };
    GpFaultInfo { ext, null, gate, idx }
}

} // verus!
