//! The register programming that brings up the command FIFO: a fixed plan of
//! special-register and memory-mapped register writes, in the order in which
//! the hardware must receive them.

use vstd::prelude::*;

verus! {

/// A memory-mapped register window of the graphics engine.
#[derive(Clone, Copy, Debug, PartialEq, Eq, Structural)]
pub enum Region {
    /// The command processor's registers (256 bytes).
    Cp,
    /// The processor interface's FIFO registers (256 bytes).
    Pi,
    /// The write-gather pipe (4 bytes).
    WriteGatherPipe,
}

/// One write of the bring-up plan.
#[derive(Clone, Copy, Debug, PartialEq, Eq, Structural)]
pub enum SetupStep {
    /// Move `value` into the CPU special-purpose register `spr`.
    SetSpr { spr: u32, value: u32 },
    /// An 8-bit write of `byte` at `offset` in `region`.
    Write8 { region: Region, offset: usize, byte: u8 },
    /// A 16-bit write of `half` at `offset` in `region`.
    Write16 { region: Region, offset: usize, half: u16 },
    /// A 32-bit write of `word` at `offset` in `region`.
    Write32 { region: Region, offset: usize, word: u32 },
}

/// The special-purpose register that holds the write-gather pipe address.
pub const SPR_WPAR: u32 = 921;

/// The physical address of the write-gather pipe.
pub const WPAR_ADDRESS: u32 = 0x0c00_8000;

/// First byte of the command FIFO in memory.
pub const FIFO_START: u32 = 0x0173_4000;

/// End of the command FIFO in memory.
pub const FIFO_END: u32 = 0x0177_4000;

/// The high watermark: three quarters of the FIFO.
pub const HI_WATERMARK: u32 = (FIFO_END - FIFO_START) * 3 / 4;

/// Command-processor status register (FIFO watermark, idle and breakpoint
/// flags); the plan does not write it.
pub const CP_STATUS: usize = 0x0;
/// Command-processor control register: bit 0 enables FIFO reads (off while
/// the FIFO is being set up), bit 4 the link to the graphics processor.
pub const CP_CONTROL: usize = 0x2;
/// Command-processor interrupt clear register.
pub const CP_CLEAR: usize = 0x4;
/// Command-processor FIFO base, low half.
pub const CP_FIFO_BASE_LO: usize = 0x20;
/// Command-processor FIFO base, high half.
pub const CP_FIFO_BASE_HI: usize = 0x22;
/// Command-processor FIFO end, low half.
pub const CP_FIFO_END_LO: usize = 0x24;
/// Command-processor FIFO end, high half.
pub const CP_FIFO_END_HI: usize = 0x26;
/// Command-processor high watermark, low half.
pub const CP_FIFO_HI_WATERMARK_LO: usize = 0x28;
/// Command-processor high watermark, high half.
pub const CP_FIFO_HI_WATERMARK_HI: usize = 0x2a;
/// Command-processor low watermark, low half.
pub const CP_FIFO_LO_WATERMARK_LO: usize = 0x2c;
/// Command-processor low watermark, high half.
pub const CP_FIFO_LO_WATERMARK_HI: usize = 0x2e;
/// Command-processor read/write distance, low half.
pub const CP_FIFO_RW_DISTANCE_LO: usize = 0x30;
/// Command-processor read/write distance, high half.
pub const CP_FIFO_RW_DISTANCE_HI: usize = 0x32;
/// Command-processor write pointer, low half.
pub const CP_FIFO_WRITE_POINTER_LO: usize = 0x34;
/// Command-processor write pointer, high half.
pub const CP_FIFO_WRITE_POINTER_HI: usize = 0x36;
/// Command-processor read pointer, low half.
pub const CP_FIFO_READ_POINTER_LO: usize = 0x38;
/// Command-processor read pointer, high half.
pub const CP_FIFO_READ_POINTER_HI: usize = 0x3a;
/// Processor-interface FIFO base.
pub const PI_FIFO_BASE: usize = 0xc;
/// Processor-interface FIFO end.
pub const PI_FIFO_END: usize = 0x10;
/// Processor-interface FIFO write pointer.
pub const PI_FIFO_WRITE_POINTER: usize = 0x14;

/// Control value written first: FIFO reads and the link disabled.
pub const CP_CONTROL_OFF: u16 = 0;
/// Clear value: metrics, underflow and overflow.
pub const CP_CLEAR_ALL: u16 = 0x7;
/// Control value written last: FIFO reads (bit 0) and the link to the
/// graphics processor (bit 4) enabled.
pub const CP_CONTROL_RUN: u16 = 0x11;

/// The low 16 bits of `x`.
pub open spec fn lo16(x: u32) -> u16 {
    (x % 0x1_0000) as u16
}

/// The high 16 bits of `x`.
pub open spec fn hi16(x: u32) -> u16 {
    (x / 0x1_0000) as u16
}

/// The low 16 bits of `x`.
pub fn low_half(x: u32) -> (r: u16)
    ensures
        r == lo16(x),
{
    assert(x & 0xffff == x % 0x1_0000) by (bit_vector);
    (x & 0xffff) as u16
}

/// The high 16 bits of `x`.
pub fn high_half(x: u32) -> (r: u16)
    ensures
        r == hi16(x),
{
    assert(x >> 16 == x / 0x1_0000) by (bit_vector);
    (x >> 16) as u16
}

/// A 16-bit command-processor write.
pub open spec fn cp16(offset: usize, value: u16) -> SetupStep {
    SetupStep::Write16 { region: Region::Cp, offset, half: value }
}

/// A 32-bit processor-interface write.
pub open spec fn pi32(offset: usize, value: u32) -> SetupStep {
    SetupStep::Write32 { region: Region::Pi, offset, word: value }
}

/// A write of zero to the write-gather pipe, 32 bits wide.
pub open spec fn wg_zero32() -> SetupStep {
    SetupStep::Write32 { region: Region::WriteGatherPipe, offset: 0, word: 0 }
}

/// The FIFO bring-up plan.
pub open spec fn setup_plan() -> Seq<SetupStep> {
    seq![
        SetupStep::SetSpr { spr: SPR_WPAR, value: WPAR_ADDRESS },
        cp16(CP_CONTROL, CP_CONTROL_OFF),
        cp16(CP_CLEAR, CP_CLEAR_ALL),
        cp16(CP_FIFO_BASE_LO, lo16(FIFO_START)),
        cp16(CP_FIFO_BASE_HI, hi16(FIFO_START)),
        cp16(CP_FIFO_END_LO, lo16(FIFO_END)),
        cp16(CP_FIFO_END_HI, hi16(FIFO_END)),
        cp16(CP_FIFO_HI_WATERMARK_LO, lo16(HI_WATERMARK)),
        cp16(CP_FIFO_HI_WATERMARK_HI, hi16(HI_WATERMARK)),
        cp16(CP_FIFO_LO_WATERMARK_LO, 0),
        cp16(CP_FIFO_LO_WATERMARK_HI, 0),
        cp16(CP_FIFO_RW_DISTANCE_LO, 0),
        cp16(CP_FIFO_RW_DISTANCE_HI, 0),
        cp16(CP_FIFO_WRITE_POINTER_LO, lo16(FIFO_START)),
        cp16(CP_FIFO_WRITE_POINTER_HI, hi16(FIFO_START)),
        cp16(CP_FIFO_READ_POINTER_LO, lo16(FIFO_START)),
        cp16(CP_FIFO_READ_POINTER_HI, hi16(FIFO_START)),
        pi32(PI_FIFO_BASE, FIFO_START),
        pi32(PI_FIFO_END, FIFO_END),
        pi32(PI_FIFO_WRITE_POINTER, FIFO_START),
        wg_zero32(),
        wg_zero32(),
        wg_zero32(),
        wg_zero32(),
        wg_zero32(),
        wg_zero32(),
        wg_zero32(),
        SetupStep::Write16 { region: Region::WriteGatherPipe, offset: 0, half: 0 },
        SetupStep::Write8 { region: Region::WriteGatherPipe, offset: 0, byte: 0 },
        pi32(PI_FIFO_WRITE_POINTER, FIFO_START),
        cp16(CP_CONTROL, CP_CONTROL_RUN),
    ]
}

/// Appends a 16-bit command-processor write.
fn push_cp16(plan: &mut Vec<SetupStep>, offset: usize, value: u16)
    ensures
        final(plan)@ == old(plan)@.push(cp16(offset, value)),
{
    plan.push(SetupStep::Write16 { region: Region::Cp, offset, half: value });
}

/// Appends a 32-bit processor-interface write.
fn push_pi32(plan: &mut Vec<SetupStep>, offset: usize, value: u32)
    ensures
        final(plan)@ == old(plan)@.push(pi32(offset, value)),
{
    plan.push(SetupStep::Write32 { region: Region::Pi, offset, word: value });
}

/// The FIFO bring-up plan, in the order in which its writes must be made.
pub fn fifo_setup_steps() -> (plan: Vec<SetupStep>)
    ensures
        plan@ == setup_plan(),
{
    let mut plan: Vec<SetupStep> = Vec::new();
    plan.push(SetupStep::SetSpr { spr: SPR_WPAR, value: WPAR_ADDRESS });

    push_cp16(&mut plan, CP_CONTROL, CP_CONTROL_OFF);
    push_cp16(&mut plan, CP_CLEAR, CP_CLEAR_ALL);

    push_cp16(&mut plan, CP_FIFO_BASE_LO, low_half(FIFO_START));
    push_cp16(&mut plan, CP_FIFO_BASE_HI, high_half(FIFO_START));
    push_cp16(&mut plan, CP_FIFO_END_LO, low_half(FIFO_END));
    push_cp16(&mut plan, CP_FIFO_END_HI, high_half(FIFO_END));

    push_cp16(&mut plan, CP_FIFO_HI_WATERMARK_LO, low_half(HI_WATERMARK));
    push_cp16(&mut plan, CP_FIFO_HI_WATERMARK_HI, high_half(HI_WATERMARK));
    push_cp16(&mut plan, CP_FIFO_LO_WATERMARK_LO, 0);
    push_cp16(&mut plan, CP_FIFO_LO_WATERMARK_HI, 0);

    push_cp16(&mut plan, CP_FIFO_RW_DISTANCE_LO, 0);
    push_cp16(&mut plan, CP_FIFO_RW_DISTANCE_HI, 0);
    push_cp16(&mut plan, CP_FIFO_WRITE_POINTER_LO, low_half(FIFO_START));
    push_cp16(&mut plan, CP_FIFO_WRITE_POINTER_HI, high_half(FIFO_START));
    push_cp16(&mut plan, CP_FIFO_READ_POINTER_LO, low_half(FIFO_START));
    push_cp16(&mut plan, CP_FIFO_READ_POINTER_HI, high_half(FIFO_START));

    push_pi32(&mut plan, PI_FIFO_BASE, FIFO_START);
    push_pi32(&mut plan, PI_FIFO_END, FIFO_END);

    push_pi32(&mut plan, PI_FIFO_WRITE_POINTER, FIFO_START);
    let mut i: usize = 0;
    while i < 7
        invariant
            i <= 7,
            plan@.len() == 20 + i,
            forall|j: int| 0 <= j < 20 ==> plan@[j] == #[trigger] setup_plan()[j],
            forall|j: int| 20 <= j < 20 + i ==> plan@[j] == wg_zero32(),
        decreases 7 - i,
    {
        plan.push(SetupStep::Write32 { region: Region::WriteGatherPipe, offset: 0, word: 0 });
        i = i + 1;
    }
    plan.push(SetupStep::Write16 { region: Region::WriteGatherPipe, offset: 0, half: 0 });
    plan.push(SetupStep::Write8 { region: Region::WriteGatherPipe, offset: 0, byte: 0 });
    push_pi32(&mut plan, PI_FIFO_WRITE_POINTER, FIFO_START);

    push_cp16(&mut plan, CP_CONTROL, CP_CONTROL_RUN);
    assert(plan@ =~= setup_plan());
    plan
}


/// The size in bytes of a register window.
pub open spec fn region_size(r: Region) -> int {
    match r {
        Region::Cp => 256,
        Region::Pi => 256,
        Region::WriteGatherPipe => 4,
    }
}

/// A memory-mapped write lies inside its window and is naturally aligned;
/// a special-register move is always in order.
pub open spec fn access_ok(step: SetupStep) -> bool {
    match step {
        SetupStep::SetSpr { .. } => true,
        SetupStep::Write8 { region, offset, .. } => offset + 1 <= region_size(region),
        SetupStep::Write16 { region, offset, .. } => offset + 2 <= region_size(region) && offset % 2 == 0,
        SetupStep::Write32 { region, offset, .. } => offset + 4 <= region_size(region) && offset % 4 == 0,
    }
}

/// The value of the last 16-bit write to `offset` of `r` among the first `n`
/// steps of `plan`.
pub open spec fn last16(plan: Seq<SetupStep>, r: Region, offset: usize, n: int) -> Option<u16>
    decreases n,
{
    if n <= 0 {
        None
    } else {
        match plan[n - 1] {
            SetupStep::Write16 { region, offset: o, half } => if region == r && o == offset {
                Some(half)
            } else {
                last16(plan, r, offset, n - 1)
            },
            _ => last16(plan, r, offset, n - 1),
        }
    }
}

/// The value of the last 32-bit write to `offset` of `r` among the first `n`
/// steps of `plan`.
pub open spec fn last32(plan: Seq<SetupStep>, r: Region, offset: usize, n: int) -> Option<u32>
    decreases n,
{
    if n <= 0 {
        None
    } else {
        match plan[n - 1] {
            SetupStep::Write32 { region, offset: o, word } => if region == r && o == offset {
                Some(word)
            } else {
                last32(plan, r, offset, n - 1)
            },
            _ => last32(plan, r, offset, n - 1),
        }
    }
}

/// The 32-bit value that a command-processor register pair holds once the
/// whole plan has run, if both halves were written.
pub open spec fn cp_pair_after(plan: Seq<SetupStep>, lo: usize, hi: usize) -> Option<int> {
    match (last16(plan, Region::Cp, lo, plan.len() as int), last16(plan, Region::Cp, hi, plan.len() as int)) {
        (Some(l), Some(h)) => Some(l + h * 0x1_0000),
        _ => None,
    }
}

/// Splitting a word into its halves loses nothing: the low half plus the high
/// half times 2^16 gives the word back.
pub proof fn lemma_halves_recombine(x: u32)
    ensures
        lo16(x) + hi16(x) * 0x1_0000 == x,
{
}

/// Every memory-mapped write of the bring-up plan stays inside its register
/// window and is aligned to its width.
pub proof fn lemma_setup_accesses_in_bounds()
    ensures
        forall|i: int| 0 <= i < setup_plan().len() ==> access_ok(#[trigger] setup_plan()[i]),
{
}

/// The FIFO window lies in memory with its start before its end, and the high
/// watermark sits at three quarters of it.
pub proof fn lemma_fifo_geometry()
    ensures
        FIFO_START < FIFO_END,
        HI_WATERMARK == (FIFO_END - FIFO_START) * 3 / 4,
        HI_WATERMARK < FIFO_END - FIFO_START,
{
}

/// Once the plan has run, the command processor and the processor interface
/// agree on the FIFO: both hold its base and end, the command processor's
/// read and write pointers sit at the base with a distance of zero, its high
/// watermark is at three quarters and its low watermark at zero, and the
/// processor interface's write pointer is at the base.
pub proof fn lemma_setup_programs_fifo()
    ensures
        cp_pair_after(setup_plan(), CP_FIFO_BASE_LO, CP_FIFO_BASE_HI) == Some(FIFO_START as int),
        cp_pair_after(setup_plan(), CP_FIFO_END_LO, CP_FIFO_END_HI) == Some(FIFO_END as int),
        cp_pair_after(setup_plan(), CP_FIFO_HI_WATERMARK_LO, CP_FIFO_HI_WATERMARK_HI)
            == Some((FIFO_END - FIFO_START) * 3 / 4),
        cp_pair_after(setup_plan(), CP_FIFO_LO_WATERMARK_LO, CP_FIFO_LO_WATERMARK_HI) == Some(0int),
        cp_pair_after(setup_plan(), CP_FIFO_RW_DISTANCE_LO, CP_FIFO_RW_DISTANCE_HI) == Some(0int),
        cp_pair_after(setup_plan(), CP_FIFO_WRITE_POINTER_LO, CP_FIFO_WRITE_POINTER_HI) == Some(FIFO_START as int),
        cp_pair_after(setup_plan(), CP_FIFO_READ_POINTER_LO, CP_FIFO_READ_POINTER_HI) == Some(FIFO_START as int),
        last32(setup_plan(), Region::Pi, PI_FIFO_BASE, setup_plan().len() as int) == Some(FIFO_START),
        last32(setup_plan(), Region::Pi, PI_FIFO_END, setup_plan().len() as int) == Some(FIFO_END),
        last32(setup_plan(), Region::Pi, PI_FIFO_WRITE_POINTER, setup_plan().len() as int) == Some(FIFO_START),
{
    reveal_with_fuel(last16, 32);
    reveal_with_fuel(last32, 32);
    lemma_halves_recombine(FIFO_START);
    lemma_halves_recombine(FIFO_END);
    lemma_halves_recombine(HI_WATERMARK);
}

/// Whether `step` is a write to `offset` of the command processor.
pub open spec fn writes_cp(step: SetupStep, offset: usize) -> bool {
    match step {
        SetupStep::Write8 { region, offset: o, .. } => region == Region::Cp && o == offset,
        SetupStep::Write16 { region, offset: o, .. } => region == Region::Cp && o == offset,
        SetupStep::Write32 { region, offset: o, .. } => region == Region::Cp && o == offset,
        SetupStep::SetSpr { .. } => false,
    }
}

/// The first memory-mapped write of the plan switches the FIFO off, before any
/// FIFO register is programmed, and the very last one switches it on, for
/// reading and for the link to the graphics processor; the control register
/// is written nowhere in between, and the status register not at all.
pub proof fn lemma_setup_enables_last()
    ensures
        setup_plan()[0] is SetSpr,
        setup_plan()[1] == cp16(CP_CONTROL, CP_CONTROL_OFF),
        setup_plan().last() == cp16(CP_CONTROL, CP_CONTROL_RUN),
        forall|i: int| 1 < i < setup_plan().len() - 1 ==> !writes_cp(#[trigger] setup_plan()[i], CP_CONTROL),
        forall|i: int| 0 <= i < setup_plan().len() ==> !writes_cp(#[trigger] setup_plan()[i], CP_STATUS),
{
}

} // verus!
