//! The one-shot machine-mode to supervisor-mode privilege bootstrap.
//!
//! Run once per hart at cold start, the bootstrap configures interrupt and
//! exception delegation, enables the machine-mode interrupt lines the
//! firmware itself must keep seeing, prepares the processor-status and
//! saved-program-counter registers for the privilege transition, and then
//! executes an irrevocable transfer into supervisor mode at a fixed entry
//! address. Every value written is computed here, bit for bit; performing
//! the writes and the terminal transition is the caller's part.

use vstd::prelude::*;

verus! {

/// The fixed supervisor entry address the bootstrap hands control to.
pub const SUPERVISOR_ENTRY: usize = 0x80010000;

/// Supervisor software (bit 1), timer (bit 5) and external (bit 9)
/// interrupts: delegated directly to supervisor mode.
pub const INTERRUPT_DELEGATION: usize = 0x222;

/// Exceptions delegated to supervisor mode: instruction address misaligned
/// (bit 0), breakpoint (bit 3), environment call from user mode (bit 8),
/// and instruction, load and store page faults (bits 12, 13, 15).
pub const EXCEPTION_DELEGATION: usize = 0xB109;

/// Machine-mode interrupt enables kept by the firmware: the machine
/// software interrupt (bit 3) and the machine timer interrupt (bit 7).
pub const MACHINE_INTERRUPT_ENABLES: usize = 0x88;

/// The processor-status value requested for the privilege transition,
/// derived from the value read at boot: the floating-point state bits
/// (13 and 14) cleared to off, the previous-interrupt-enable bit (7)
/// cleared, the previous-privilege field (bits 11 and 12) set to
/// supervisor, the machine-interrupt-enable bit (3) set, and every other
/// bit left as read.
pub open spec fn supervisor_entry_mstatus(read: usize) -> usize {
    (read & !0x6000 & !0x80 & !0x1800) | 0x800 | 0x8
}

/// Everything the bootstrap writes before the privilege transition, and
/// the three argument-register values the transition hands to supervisor
/// code.
#[derive(Clone, Copy, Debug, PartialEq, Eq)]
pub struct BootPlan {
    /// Interrupt-delegation register value.
    pub mideleg: usize,
    /// Exception-delegation register value.
    pub medeleg: usize,
    /// Machine interrupt-enable register value.
    pub mie: usize,
    /// Processor-status register value requested for the transition.
    pub mstatus: usize,
    /// Saved program counter: the supervisor entry address.
    pub mepc: usize,
    /// Paging-control register value: zero, virtual memory disabled.
    pub satp: usize,
    /// First argument to supervisor code: the hart id.
    pub arg0: usize,
    /// Second argument: the device-tree blob pointer.
    pub arg1: usize,
    /// Third argument: the fixed boot-protocol mask.
    pub arg2: usize,
}

/// Compute the full bootstrap write plan for one hart: the delegation
/// masks, the machine interrupt enables, the processor status derived
/// from the value read (`mstatus_read`), the fixed supervisor entry
/// address, a cleared paging control, and the boot-protocol arguments
/// (hart id, device-tree blob pointer, mask 1).
pub fn boot_first_hart(hartid: usize, dtb: usize, mstatus_read: usize) -> (p: BootPlan)
    ensures
        p.mideleg == INTERRUPT_DELEGATION,
        p.medeleg == EXCEPTION_DELEGATION,
        p.mie == MACHINE_INTERRUPT_ENABLES,
        p.mstatus == supervisor_entry_mstatus(mstatus_read),
        p.mepc == SUPERVISOR_ENTRY,
        p.satp == 0,
        p.arg0 == hartid,
        p.arg1 == dtb,
        p.arg2 == 1,
{
    // SSIP | STIP | SEIP
    let interrupts: usize = (1 << 1) | (1 << 5) | (1 << 9);
    assert(interrupts == 0x222) by (bit_vector)
        requires
            interrupts == (1usize << 1) | (1usize << 5) | (1usize << 9),
    ;
    // instruction address misaligned, breakpoint, environment call from
    // u-mode, instruction / load / store page faults
    let exceptions: usize = (1 << 0) | (1 << 3) | (1 << 8) | (1 << 12) | (1 << 13) | (1 << 15);
    assert(exceptions == 0xB109) by (bit_vector)
        requires
            exceptions == (1usize << 0) | (1usize << 3) | (1usize << 8) | (1usize << 12) | (
            1usize << 13) | (1usize << 15),
    ;
    // MSIE | MTIE
    let enables: usize = (1 << 3) | (1 << 7);
    assert(enables == 0x88) by (bit_vector)
        requires
            enables == (1usize << 3) | (1usize << 7),
    ;
    let mstatus: usize = (mstatus_read & !0x6000 & !0x80 & !0x1800) | 0x800 | 0x8;
    let mask: usize = 1;
    BootPlan {
        mideleg: interrupts,
        medeleg: exceptions,
        mie: enables,
        mstatus,
        mepc: SUPERVISOR_ENTRY,
        satp: 0,
        arg0: hartid,
        arg1: dtb,
        arg2: mask,
    }
}

/// Law: the interrupt-delegation mask is exactly bits 1, 5 and 9 set, and
/// the exception-delegation mask is exactly bits 0, 3, 8, 12, 13 and 15
/// set.
pub proof fn lemma_delegation_masks()
    ensures
        INTERRUPT_DELEGATION == (1usize << 1) | (1usize << 5) | (1usize << 9),
        EXCEPTION_DELEGATION == (1usize << 0) | (1usize << 3) | (1usize << 8) | (1usize << 12) | (
        1usize << 13) | (1usize << 15),
{
    assert(0x222usize == (1usize << 1) | (1usize << 5) | (1usize << 9)) by (bit_vector);
    assert(0xB109usize == (1usize << 0) | (1usize << 3) | (1usize << 8) | (1usize << 12) | (
    1usize << 13) | (1usize << 15)) by (bit_vector);
}

/// Law: the requested processor status has the floating-point state bits
/// off, the previous-interrupt-enable bit clear, the previous-privilege
/// field equal to supervisor, the machine-interrupt-enable bit set, and
/// every bit outside those fields exactly as read at boot.
pub proof fn lemma_supervisor_entry_mstatus_bits(read: usize)
    ensures
        supervisor_entry_mstatus(read) & 0x6000 == 0,
        supervisor_entry_mstatus(read) & 0x80 == 0,
        supervisor_entry_mstatus(read) & 0x1800 == 0x800,
        supervisor_entry_mstatus(read) & 0x8 == 0x8,
        supervisor_entry_mstatus(read) & !0x7888 == read & !0x7888,
{
    assert((((read & !0x6000usize & !0x80 & !0x1800) | 0x800 | 0x8) & 0x6000usize == 0) && (((read
        & !0x6000usize & !0x80 & !0x1800) | 0x800 | 0x8) & 0x80usize == 0) && (((read & !0x6000usize
        & !0x80 & !0x1800) | 0x800 | 0x8) & 0x1800usize == 0x800) && (((read & !0x6000usize & !0x80
        & !0x1800) | 0x800 | 0x8) & 0x8usize == 0x8) && (((read & !0x6000usize & !0x80 & !0x1800)
        | 0x800 | 0x8) & !0x7888usize == read & !0x7888)) by (bit_vector);
}

} // verus!
