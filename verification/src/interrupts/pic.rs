//! The main and secondary 8259 PICs: their initialisation sequence and end of interrupt
//! commands.
use vstd::prelude::*;

use crate::ports::Port;

verus! {

/// Where IRQ vectors start in the IDT.
pub const IRQ_START: u8 = 32;

/// Offset to the secondary PIC's IRQs from the main's.
pub const SECONDARY_OFFSET: u8 = 8;

/// Command sent to a PIC to tell it that the interrupt's over.
pub const EOI_COMMAND: u8 = 0b100000;

/// Initialisation & ICW4 bits set.
pub const INIT_CMD: u8 = 0b10001;

/// Tells the PIC to use 8086 mode instead of 8080.
pub const MODE_8086: u8 = 0x01;

/// The IRQ used to forward interrupts from the secondary to the main PIC.
pub const FORWARD_IRQ: u8 = 2;

/// The writes that end interrupt `irq`: none for an IRQ the PICs don't have (above 15),
/// the EOI command to the secondary PIC then to the main one for an IRQ of the secondary,
/// and to the main one alone otherwise.
pub open spec fn eoi_writes(irq: u8) -> Seq<(Port, u8)> {
    if irq > 15 {
        seq![]
    } else if irq >= SECONDARY_OFFSET {
        seq![(Port::SecondaryPicCmd, EOI_COMMAND), (Port::MainPicCmd, EOI_COMMAND)]
    } else {
        seq![(Port::MainPicCmd, EOI_COMMAND)]
    }
}

/// The writes that send the end of interrupt command for `irq`, see [`eoi_writes`].
pub fn eoi(irq: u8) -> (r: Vec<(Port, u8)>)
    ensures
        r@ == eoi_writes(irq),
{
    let mut out: Vec<(Port, u8)> = Vec::new();
    if irq > 15 {
        return out;
    }
    if irq >= SECONDARY_OFFSET {
        out.push((Port::SecondaryPicCmd, EOI_COMMAND));
    }
    out.push((Port::MainPicCmd, EOI_COMMAND));
    assert(out@ =~= eoi_writes(irq));
    out
}

/// The writes that initialise both PICs: the init command to both, their vector offsets
/// in the IDT, how they are chained through `FORWARD_IRQ`, 8086 mode, and finally
/// unmasking every IRQ.
pub fn init_writes() -> (r: [(Port, u8); 10])
    ensures
        r@ == seq![
            (Port::MainPicCmd, INIT_CMD),
            (Port::SecondaryPicCmd, INIT_CMD),
            (Port::MainPicData, IRQ_START),
            (Port::SecondaryPicData, (IRQ_START + SECONDARY_OFFSET) as u8),
            (Port::MainPicData, 4u8),
            (Port::SecondaryPicData, FORWARD_IRQ),
            (Port::MainPicData, MODE_8086),
            (Port::SecondaryPicData, MODE_8086),
            (Port::MainPicData, 0u8),
            (Port::SecondaryPicData, 0u8),
        ],
{
    let r = [
        (Port::MainPicCmd, INIT_CMD),
        (Port::SecondaryPicCmd, INIT_CMD),
        (Port::MainPicData, IRQ_START),
        (Port::SecondaryPicData, IRQ_START + SECONDARY_OFFSET),
        (Port::MainPicData, 1u8 << FORWARD_IRQ),
        (Port::SecondaryPicData, FORWARD_IRQ),
        (Port::MainPicData, MODE_8086),
        (Port::SecondaryPicData, MODE_8086),
        (Port::MainPicData, 0u8),
        (Port::SecondaryPicData, 0u8),
    ];
    assert(1u8 << 2u8 == 4u8) by (bit_vector);
    assert(r@ =~= seq![
        (Port::MainPicCmd, INIT_CMD),
        (Port::SecondaryPicCmd, INIT_CMD),
        (Port::MainPicData, IRQ_START),
        (Port::SecondaryPicData, (IRQ_START + SECONDARY_OFFSET) as u8),
        (Port::MainPicData, 4u8),
        (Port::SecondaryPicData, FORWARD_IRQ),
        (Port::MainPicData, MODE_8086),
        (Port::SecondaryPicData, MODE_8086),
        (Port::MainPicData, 0u8),
        (Port::SecondaryPicData, 0u8),
    ]);
    r
}

} // verus!
