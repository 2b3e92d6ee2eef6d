use rbl::boot::{
    boot_first_hart, EXCEPTION_DELEGATION, INTERRUPT_DELEGATION, MACHINE_INTERRUPT_ENABLES,
    SUPERVISOR_ENTRY,
};
use rbl::clint::Clint;
use rbl::trap::{trap_handler, IrqLines, TrapCause, TrapFrame, TrapOutcome};

/// The fixed "function not implemented" SBI return code: -38 as a machine word.
const NOT_IMPLEMENTED: usize = usize::MAX - 37;

/// A trap frame with the calling-convention registers set and a marker in
/// an uninterpreted register.
fn frame(a7: usize, a0: usize, a1: usize, a2: usize) -> TrapFrame {
    TrapFrame {
        x0: 0,
        x1: 0,
        x2: 0,
        x3: 0,
        x4: 0,
        x5: 0,
        x6: 0,
        x7: 0,
        x8: 0,
        x9: 0,
        x10: a0,
        x11: a1,
        x12: a2,
        x13: 0,
        x14: 0,
        x15: 0,
        x16: 0,
        x17: a7,
        x18: 0xdead,
        x19: 0,
        x20: 0,
        x21: 0,
        x22: 0,
        x23: 0,
        x24: 0,
        x25: 0,
        x26: 0,
        x27: 0,
        x28: 0,
        x29: 0,
        x30: 0,
        x31: 0,
    }
}

fn idle_lines() -> IrqLines {
    IrqLines { mtimer_enabled: false, stimer_pending: false }
}

#[test]
fn simple_ids_return_zero_and_advance() {
    for id in [1usize, 3, 4, 5, 6] {
        let mut clint = Clint::new(1);
        let mut irq = idle_lines();
        let mut tf = frame(id, 0xabcdef, 0x123456, 0x778899);
        let out = trap_handler(
            &mut tf,
            &mut clint,
            &mut irq,
            TrapCause::SupervisorEnvCall,
            0x2000,
            0,
            0,
            None,
        );
        assert_eq!(tf.x10, 0, "id {id} must return 0");
        assert_eq!(tf.x18, 0xdead, "uninterpreted registers must be preserved");
        match out {
            TrapOutcome::Resume { epc, .. } => assert_eq!(epc, 0x2004),
            other => panic!("id {id} must resume, got {other:?}"),
        }
    }
}

#[test]
fn set_timer_programs_compare_register() {
    let mut clint = Clint::new(2);
    let mut irq = idle_lines();
    let mut tf = frame(0, 0x00001000, 0x00000002, 0);
    let out = trap_handler(
        &mut tf,
        &mut clint,
        &mut irq,
        TrapCause::SupervisorEnvCall,
        0x2000,
        0,
        0,
        None,
    );
    assert_eq!(clint.get_mtimecmp(0), 0x0000000200001000);
    assert_eq!(clint.get_mtimecmp(1), 0, "the other hart's register is untouched");
    assert!(irq.mtimer_enabled, "the machine timer-interrupt line is re-enabled");
    assert!(!irq.stimer_pending, "any pending supervisor timer interrupt is cleared");
    assert_eq!(tf.x10, 0, "the timer call returns 0");
    assert_eq!(out, TrapOutcome::Resume { epc: 0x2004, console_out: None });
}

#[test]
fn putchar_emits_low_byte() {
    let mut clint = Clint::new(1);
    let mut irq = idle_lines();
    let mut tf = frame(1, 0x141, 0, 0);
    let out = trap_handler(
        &mut tf,
        &mut clint,
        &mut irq,
        TrapCause::SupervisorEnvCall,
        0x2000,
        0,
        0,
        None,
    );
    assert_eq!(tf.x10, 0);
    assert_eq!(out, TrapOutcome::Resume { epc: 0x2004, console_out: Some(0x41) });
}

#[test]
fn getchar_returns_ready_byte() {
    let mut clint = Clint::new(1);
    let mut irq = idle_lines();
    let mut tf = frame(2, 0, 0, 0);
    let out = trap_handler(
        &mut tf,
        &mut clint,
        &mut irq,
        TrapCause::SupervisorEnvCall,
        0x2000,
        0,
        0,
        Some(b'x'),
    );
    assert_eq!(tf.x10, b'x' as usize);
    assert_eq!(out, TrapOutcome::Resume { epc: 0x2004, console_out: None });
}

#[test]
fn getchar_returns_all_ones_when_empty() {
    let mut clint = Clint::new(1);
    let mut irq = idle_lines();
    let mut tf = frame(2, 0, 0, 0);
    trap_handler(
        &mut tf,
        &mut clint,
        &mut irq,
        TrapCause::SupervisorEnvCall,
        0x2000,
        0,
        0,
        None,
    );
    assert_eq!(tf.x10, usize::MAX);
}

#[test]
fn unknown_ids_return_not_implemented_and_advance() {
    for id in [7usize, 100, usize::MAX] {
        let mut clint = Clint::new(1);
        let mut irq = idle_lines();
        let mut tf = frame(id, 1, 2, 3);
        let out = trap_handler(
            &mut tf,
            &mut clint,
            &mut irq,
            TrapCause::SupervisorEnvCall,
            0x2000,
            0,
            0,
            None,
        );
        assert_eq!(tf.x10, NOT_IMPLEMENTED, "id {id} must return the fixed code");
        assert_eq!(out, TrapOutcome::Resume { epc: 0x2004, console_out: None });
    }
}

#[test]
fn machine_timer_reroutes_to_supervisor() {
    let mut clint = Clint::new(1);
    let mut irq = IrqLines { mtimer_enabled: true, stimer_pending: false };
    let mut tf = frame(0, 0, 0, 0);
    let before = tf;
    let out = trap_handler(
        &mut tf,
        &mut clint,
        &mut irq,
        TrapCause::MachineTimerInterrupt,
        0x3000,
        0,
        0,
        None,
    );
    assert!(!irq.mtimer_enabled, "the machine timer-interrupt line is disabled");
    assert!(irq.stimer_pending, "the supervisor timer interrupt becomes pending");
    assert_eq!(tf, before, "the frame is untouched");
    assert_eq!(
        out,
        TrapOutcome::Resume { epc: 0x3000, console_out: None },
        "the saved program counter is unchanged"
    );
}

#[test]
fn unmodeled_cause_is_fatal() {
    let mut clint = Clint::new(1);
    let mut irq = idle_lines();
    let mut tf = frame(0, 1, 2, 3);
    let before = tf;
    let out = trap_handler(
        &mut tf,
        &mut clint,
        &mut irq,
        TrapCause::Other(0x7),
        0x4000,
        0x555,
        0,
        None,
    );
    assert_eq!(
        out,
        TrapOutcome::Fatal { cause: TrapCause::Other(0x7), epc: 0x4000, tval: 0x555 },
        "the full diagnostic context is handed back, and no resume address"
    );
    assert_eq!(tf, before);
    assert!(!irq.mtimer_enabled);
    assert!(!irq.stimer_pending);
}

#[test]
fn timer_compare_registers_are_per_hart() {
    let mut clint = Clint::new(2);
    clint.set_timer(0, 5);
    clint.set_timer(1, 7);
    assert_eq!(clint.get_mtimecmp(0), 5);
    assert_eq!(clint.get_mtimecmp(1), 7);
    clint.set_timer(0, 9);
    assert_eq!(clint.get_mtimecmp(0), 9);
    assert_eq!(clint.get_mtimecmp(1), 7, "hart 1's register must be unmodified");
}

#[test]
fn software_interrupt_flags_are_per_hart() {
    let mut clint = Clint::new(2);
    clint.send_soft(1);
    assert_eq!(clint.get_msip(0), 0);
    assert_eq!(clint.get_msip(1), 1);
    clint.clear_soft(1);
    assert_eq!(clint.get_msip(1), 0);
}

#[test]
fn wall_clock_reads_are_non_decreasing() {
    let clint = Clint::new(1);
    let t1 = clint.get_mtime();
    let t2 = clint.get_mtime();
    assert_eq!(t1, t2);
    assert!(t2 >= t1);
}

#[test]
fn delegation_masks_are_exact() {
    assert_eq!(INTERRUPT_DELEGATION, (1 << 1) | (1 << 5) | (1 << 9));
    assert_eq!(INTERRUPT_DELEGATION, 0x222);
    assert_eq!(
        EXCEPTION_DELEGATION,
        (1 << 0) | (1 << 3) | (1 << 8) | (1 << 12) | (1 << 13) | (1 << 15)
    );
    assert_eq!(EXCEPTION_DELEGATION, 0xB109);
}

#[test]
fn boot_plan_is_exact() {
    let plan = boot_first_hart(3, 0x8800_0000, 0);
    assert_eq!(plan.mideleg, INTERRUPT_DELEGATION);
    assert_eq!(plan.medeleg, EXCEPTION_DELEGATION);
    assert_eq!(plan.mie, MACHINE_INTERRUPT_ENABLES);
    assert_eq!(plan.mie, (1 << 3) | (1 << 7));
    assert_eq!(plan.mstatus, 0x808, "from a zero status: previous privilege supervisor, interrupts enabled");
    assert_eq!(plan.mepc, SUPERVISOR_ENTRY);
    assert_eq!(plan.mepc, 0x80010000);
    assert_eq!(plan.satp, 0);
    assert_eq!(plan.arg0, 3);
    assert_eq!(plan.arg1, 0x8800_0000);
    assert_eq!(plan.arg2, 1);
}

#[test]
fn boot_status_touches_only_its_fields() {
    let plan = boot_first_hart(0, 0, 0xFFFF_FFFF);
    // Bits 7, 11, 12, 13, 14 are rewritten (to 0x800), bit 3 is set, the
    // rest of the read value is kept.
    assert_eq!(plan.mstatus, 0xFFFF_8F7F);
}
