//! Parameters sent when (re)initialising the floppy controller.
use vstd::prelude::*;

use crate::floppy::FloppyError;

verus! {

/// Configure parameters: no implied seeks, FIFO enabled, drive polling disabled,
/// 8 bytes between interrupts, default write precompensation.
pub fn configure_params() -> (r: [u8; 3])
    ensures
        r@ == seq![0u8, 0x57u8, 0u8],
{
    let r = [0u8, ((1u8 << 6u8) | (0u8 << 5u8) | (1u8 << 4u8) | 7u8), 0u8];
    assert(((1u8 << 6u8) | (0u8 << 5u8) | (1u8 << 4u8) | 7u8) == 0x57u8) by (bit_vector);
    assert(r@ =~= seq![0u8, 0x57u8, 0u8]);
    r
}

/// Value to set the CCR to for a 1000 Kbps datarate (2880 KB floppies).
pub const CCR_1000_KBPS: u8 = 3;

/// Value to set the CCR to for a 500 Kbps datarate (1440 or 1200 KB floppies).
pub const CCR_500_KBPS: u8 = 0;

/// The controller settings for a floppy: the CCR value and the Specify parameters.
#[derive(Debug, Clone, Copy, PartialEq, Eq)]
pub struct DriveTiming {
    pub ccr: u8,
    pub datarate: u64,
    pub specify: [u8; 2],
}

/// The step rate time for a datarate: `16 - 8 ms * datarate / 500000`.
pub open spec fn step_rate(datarate: u64) -> int {
    16 - (8 * datarate / 500000)
}

/// The head load time for a datarate: `10 ms * datarate / 1000000`.
pub open spec fn head_load(datarate: u64) -> int {
    10 * datarate / 1000000
}

/// The controller settings for a floppy with `space` KB: 500 Kbps for 1200 & 1440 KB,
/// 1000 Kbps for 2880 KB, and an error for any other capacity. The Specify parameters are
/// the step rate time (with a zero head unload time), then the head load time with the
/// non-DMA flag.
pub fn drive_timing(space: u16) -> (r: Result<DriveTiming, FloppyError>)
    ensures
        (space == 1200 || space == 1440) ==> (r matches Ok(t) && t.ccr == CCR_500_KBPS
            && t.datarate == 500_000 && t.specify@ == seq![0x80u8, 0x0Bu8]),
        space == 2880 ==> (r matches Ok(t) && t.ccr == CCR_1000_KBPS && t.datarate == 1_000_000
            && t.specify@ == seq![0x00u8, 0x15u8]),
        space != 1200 && space != 1440 && space != 2880 ==> (r matches Err(FloppyError::Other(s))
            && s@ == "Unsupported storage capacity!"@),
{
    let (ccr, datarate): (u8, u64) = if space == 1200 || space == 1440 {
        (CCR_500_KBPS, 500_000)
    } else if space == 2880 {
        (CCR_1000_KBPS, 1_000_000)
    } else {
        return Err(FloppyError::Other("Unsupported storage capacity!"));
    };
    let srt = (16 - (8 * datarate / 500000)) as u8;
    let hlt = (10 * datarate / 1000000) as u8;
    let hut: u8 = 0;
    let ndma: u8 = 1;
    let p0 = (srt << 4u8) | hut;
    let p1 = (hlt << 1u8) | ndma;
    if datarate == 500_000 {
        assert(srt == 8 && hlt == 5);
        assert(p0 == 0x80u8 && p1 == 0x0Bu8) by (bit_vector)
            requires
                srt == 8u8,
                hlt == 5u8,
                hut == 0u8,
                ndma == 1u8,
                p0 == (srt << 4u8) | hut,
                p1 == (hlt << 1u8) | ndma,
        ;
    } else {
        assert(srt == 0 && hlt == 10);
        assert(p0 == 0u8 && p1 == 0x15u8) by (bit_vector)
            requires
                srt == 0u8,
                hlt == 10u8,
                hut == 0u8,
                ndma == 1u8,
                p0 == (srt << 4u8) | hut,
                p1 == (hlt << 1u8) | ndma,
        ;
    }
    let specify = [p0, p1];
    Ok(DriveTiming { ccr, datarate, specify })
}

} // verus!
