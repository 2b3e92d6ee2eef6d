//! The machine-mode trap dispatcher and its Supervisor Binary Interface
//! call table.
//!
//! On every trap the dispatcher decodes the cause. A supervisor
//! environment call carries a function id in register 17 and up to three
//! arguments in registers 10 to 12; the dispatcher invokes the matching
//! handler, writes the return value back into register 10, and advances
//! the saved program counter past the call instruction. A machine timer
//! interrupt is rerouted to supervisor mode by flipping two interrupt
//! lines. Any other cause is fatal and is handed back, with its full
//! diagnostic context, for reporting and a permanent halt.

use vstd::prelude::*;

use crate::clint::Clint;

verus! {

/// The saved general-purpose register snapshot captured on trap entry and
/// restored on trap exit. Register 0 is the hardwired zero register. The
/// dispatcher interprets only registers 10 to 12 (arguments), 17 (function
/// id) and 10 again for the return value; every other register is opaque
/// payload it preserves.
#[derive(Clone, Copy, Debug, PartialEq, Eq)]
pub struct TrapFrame {
    pub x0: usize,
    pub x1: usize,
    pub x2: usize,
    pub x3: usize,
    pub x4: usize,
    pub x5: usize,
    pub x6: usize,
    pub x7: usize,
    pub x8: usize,
    pub x9: usize,
    pub x10: usize,
    pub x11: usize,
    pub x12: usize,
    pub x13: usize,
    pub x14: usize,
    pub x15: usize,
    pub x16: usize,
    pub x17: usize,
    pub x18: usize,
    pub x19: usize,
    pub x20: usize,
    pub x21: usize,
    pub x22: usize,
    pub x23: usize,
    pub x24: usize,
    pub x25: usize,
    pub x26: usize,
    pub x27: usize,
    pub x28: usize,
    pub x29: usize,
    pub x30: usize,
    pub x31: usize,
}

/// Every register of the frame except register 10 (the return-value slot)
/// is unchanged.
pub open spec fn frame_preserved_except_a0(pre: TrapFrame, post: TrapFrame) -> bool {
    &&& post.x0 == pre.x0
    &&& post.x1 == pre.x1
    &&& post.x2 == pre.x2
    &&& post.x3 == pre.x3
    &&& post.x4 == pre.x4
    &&& post.x5 == pre.x5
    &&& post.x6 == pre.x6
    &&& post.x7 == pre.x7
    &&& post.x8 == pre.x8
    &&& post.x9 == pre.x9
    &&& post.x11 == pre.x11
    &&& post.x12 == pre.x12
    &&& post.x13 == pre.x13
    &&& post.x14 == pre.x14
    &&& post.x15 == pre.x15
    &&& post.x16 == pre.x16
    &&& post.x17 == pre.x17
    &&& post.x18 == pre.x18
    &&& post.x19 == pre.x19
    &&& post.x20 == pre.x20
    &&& post.x21 == pre.x21
    &&& post.x22 == pre.x22
    &&& post.x23 == pre.x23
    &&& post.x24 == pre.x24
    &&& post.x25 == pre.x25
    &&& post.x26 == pre.x26
    &&& post.x27 == pre.x27
    &&& post.x28 == pre.x28
    &&& post.x29 == pre.x29
    &&& post.x30 == pre.x30
    &&& post.x31 == pre.x31
}

/// The two interrupt lines the dispatcher reprograms: the machine
/// timer-interrupt enable and the supervisor timer-interrupt pending flag.
#[derive(Clone, Copy, Debug, PartialEq, Eq, Structural)]
pub struct IrqLines {
    pub mtimer_enabled: bool,
    pub stimer_pending: bool,
}

/// The trap causes the dispatcher distinguishes. Anything but a supervisor
/// environment call or a machine timer interrupt is unmodeled and fatal;
/// the raw cause-register value is carried for the diagnostic report.
#[derive(Clone, Copy, Debug, PartialEq, Eq)]
pub enum TrapCause {
    SupervisorEnvCall,
    MachineTimerInterrupt,
    Other(usize),
}

/// What the dispatcher decides: either resume the interrupted context at
/// `epc` (first transmitting `console_out` on the console, if any), or
/// report the carried diagnostic context and halt permanently.
#[derive(Clone, Copy, Debug, PartialEq, Eq)]
pub enum TrapOutcome {
    Resume { epc: usize, console_out: Option<u8> },
    Fatal { cause: TrapCause, epc: usize, tval: usize },
}

/// The fixed "function not implemented" return code: -38 interpreted as an
/// unsigned machine word.
pub open spec fn not_implemented() -> usize {
    (-38isize) as usize
}

/// The 64-bit timer deadline encoded as two 32-bit halves: low half in
/// register 10, high half in register 11.
pub open spec fn combined_deadline(lo: usize, hi: usize) -> u64 {
    ((hi as u64) << 32) | (lo as u64)
}

/// The value an environment call returns, by function id. Ids 0 to 6 are
/// implemented; of these only the console read (id 2) returns anything but
/// zero: the byte the console had ready, or an all-ones sentinel if none.
/// Every other id returns the fixed "not implemented" code.
pub open spec fn sbi_return(which: usize, console_in: Option<u8>) -> usize {
    if which == 2 {
        match console_in {
            Some(b) => b as usize,
            None => usize::MAX,
        }
    } else if which <= 6 {
        0
    } else {
        not_implemented()
    }
}

/// Timer call (id 0): program the calling hart's timer-compare register
/// with the given deadline, re-enable the machine timer-interrupt line,
/// and clear any pending supervisor timer interrupt.
pub fn sbi_set_timer(clint: &mut Clint, irq: &mut IrqLines, hart_id: usize, time: u64) -> (r: usize)
    requires
        old(clint).wf(),
        hart_id < old(clint).harts(),
    ensures
        r == 0,
        final(clint).wf(),
        final(clint).harts() == old(clint).harts(),
        final(clint).compare() == old(clint).compare().update(hart_id as int, time),
        final(clint).time() == old(clint).time(),
        final(clint).soft() == old(clint).soft(),
        *final(irq) == (IrqLines { mtimer_enabled: true, stimer_pending: false }),
{
    clint.set_timer(hart_id, time);
    irq.mtimer_enabled = true;
    irq.stimer_pending = false;
    0
}

/// Console write (id 1): the low byte of the argument is the character to
/// transmit; the call itself returns zero.
pub fn sbi_console_putchar(ch: usize) -> (r: (usize, u8))
    ensures
        r.0 == 0,
        r.1 == ch as u8,
{
    (0, ch as u8)
}

/// Console read (id 2): `console_in` is what the console had ready; the
/// call returns that byte, or an all-ones sentinel if none was available.
pub fn sbi_console_getchar(console_in: Option<u8>) -> (r: usize)
    ensures
        r == sbi_return(2, console_in),
{
    match console_in {
        Some(c) => c as usize,
        None => usize::MAX,
    }
}

/// Clear IPI (id 3): deliberately a no-op; returns zero.
pub fn sbi_clear_ipi() -> (r: usize)
    ensures
        r == 0,
{
    0
}

/// Send IPI (id 4): deliberately a no-op; the hart mask is accepted but
/// not acted upon; returns zero.
pub fn sbi_send_ipi(_hart_mask: usize) -> (r: usize)
    ensures
        r == 0,
{
    0
}

/// Remote instruction fence (id 5): deliberately a no-op; returns zero.
pub fn sbi_remote_fence_i(_hart_mask: usize) -> (r: usize)
    ensures
        r == 0,
{
    0
}

/// Remote address-space fence (id 6): deliberately a no-op; the mask,
/// start and size are accepted but not acted upon; returns zero.
pub fn sbi_remote_sfence_vma(_hart_mask: usize, _start: usize, _size: usize) -> (r: usize)
    ensures
        r == 0,
{
    0
}

/// The trap dispatcher. Decodes `cause` and decides everything that
/// follows from one trap: the new device and interrupt-line state, the
/// updated trap frame, any console byte to transmit, and where (or
/// whether) to resume.
///
/// For a supervisor environment call the function id is register 17 and
/// the arguments are registers 10 to 12; the return value is written to
/// register 10, every other register is preserved, and the saved program
/// counter advances by one instruction width (4 bytes) whatever the id,
/// the unsupported ones included. A machine timer interrupt disables the
/// machine timer-interrupt line and marks the supervisor timer interrupt
/// pending, resuming at the unchanged program counter. Any other cause
/// changes nothing and is handed back as fatal with its full context.
pub fn trap_handler(
    tf: &mut TrapFrame,
    clint: &mut Clint,
    irq: &mut IrqLines,
    cause: TrapCause,
    mepc: usize,
    mtval: usize,
    hart_id: usize,
    console_in: Option<u8>,
) -> (out: TrapOutcome)
    requires
        old(clint).wf(),
        hart_id < old(clint).harts(),
        mepc + 4 <= usize::MAX,
    ensures
        final(clint).wf(),
        final(clint).harts() == old(clint).harts(),
        match cause {
            TrapCause::SupervisorEnvCall => {
                &&& out == (TrapOutcome::Resume {
                    epc: (mepc + 4) as usize,
                    console_out: if old(tf).x17 == 1 {
                        Some(old(tf).x10 as u8)
                    } else {
                        None::<u8>
                    },
                })
                &&& final(tf).x10 == sbi_return(old(tf).x17, console_in)
                &&& frame_preserved_except_a0(*old(tf), *final(tf))
                &&& if old(tf).x17 == 0 {
                    &&& final(clint).compare() == old(clint).compare().update(
                        hart_id as int,
                        combined_deadline(old(tf).x10, old(tf).x11),
                    )
                    &&& final(clint).time() == old(clint).time()
                    &&& final(clint).soft() == old(clint).soft()
                    &&& *final(irq) == (IrqLines { mtimer_enabled: true, stimer_pending: false })
                } else {
                    &&& *final(clint) == *old(clint)
                    &&& *final(irq) == *old(irq)
                }
            },
            TrapCause::MachineTimerInterrupt => {
                &&& out == (TrapOutcome::Resume { epc: mepc, console_out: None::<u8> })
                &&& *final(tf) == *old(tf)
                &&& *final(clint) == *old(clint)
                &&& *final(irq) == (IrqLines { mtimer_enabled: false, stimer_pending: true })
            },
            TrapCause::Other(_) => {
                &&& out == (TrapOutcome::Fatal { cause, epc: mepc, tval: mtval })
                &&& *final(tf) == *old(tf)
                &&& *final(clint) == *old(clint)
                &&& *final(irq) == *old(irq)
            },
        },
{
    match cause {
        TrapCause::SupervisorEnvCall => {
            let which: usize = tf.x17;
            let arg1: usize = tf.x10;
            let arg2: usize = tf.x11;
            let arg3: usize = tf.x12;
            let mut console_out: Option<u8> = None;
            let ret: usize = match which {
                0 => sbi_set_timer(clint, irq, hart_id, ((arg2 as u64) << 32) | (arg1 as u64)),
                1 => {
                    let (r, byte) = sbi_console_putchar(arg1);
                    console_out = Some(byte);
                    r
                },
                2 => sbi_console_getchar(console_in),
                3 => sbi_clear_ipi(),
                4 => sbi_send_ipi(arg1),
                5 => sbi_remote_fence_i(arg1),
                6 => sbi_remote_sfence_vma(arg1, arg2, arg3),
                _ => (-38isize) as usize,
            };
            tf.x10 = ret;
            TrapOutcome::Resume { epc: mepc + 4, console_out }
        },
        TrapCause::MachineTimerInterrupt => {
            irq.mtimer_enabled = false;
            irq.stimer_pending = true;
            TrapOutcome::Resume { epc: mepc, console_out: None }
        },
        TrapCause::Other(_) => TrapOutcome::Fatal { cause, epc: mepc, tval: mtval },
    }
}

/// Law: every implemented function id from 1 to 6 returns exactly zero,
/// whatever the arguments; for the console read (id 2) this holds when the
/// console hands back the zero byte, the one case in which that call's
/// sentinel-or-byte return is zero. (The program-counter advance by 4 for
/// these ids is part of `trap_handler`'s postcondition.)
pub proof fn lemma_simple_calls_return_zero(which: usize, console_in: Option<u8>)
    requires
        1 <= which <= 6,
        which == 2 ==> console_in == Some(0u8),
    ensures
        sbi_return(which, console_in) == 0,
{
}

/// Law: every function id above 6 returns the fixed "not implemented"
/// code. (That the saved program counter still advances by 4 is part of
/// `trap_handler`'s postcondition.)
pub proof fn lemma_unknown_call_returns_not_implemented(which: usize, console_in: Option<u8>)
    requires
        which > 6,
    ensures
        sbi_return(which, console_in) == not_implemented(),
{
}

} // verus!
