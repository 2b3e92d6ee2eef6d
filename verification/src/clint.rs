//! Model of the core-local interrupt timer device (CLINT).
//!
//! The device holds a free-running 64-bit wall-clock counter, one 64-bit
//! timer-compare register per hart, and one 32-bit software-interrupt flag
//! per hart. Every operation is addressed by a caller-supplied hart id;
//! each hart is expected to touch only its own slots, so the contracts
//! state precisely which slot changes and that every other slot is kept.

use vstd::prelude::*;

verus! {

/// The core-local interrupt timer device: the wall-clock counter, the
/// per-hart timer-compare registers, and the per-hart software-interrupt
/// flags.
pub struct Clint {
    mtime: u64,
    mtimecmp: Vec<u64>,
    msip: Vec<u32>,
}

impl Clint {
    /// The wall-clock counter value.
    pub closed spec fn time(&self) -> u64 {
        self.mtime
    }

    /// The timer-compare registers, indexed by hart id.
    pub closed spec fn compare(&self) -> Seq<u64> {
        self.mtimecmp@
    }

    /// The software-interrupt flags, indexed by hart id.
    pub closed spec fn soft(&self) -> Seq<u32> {
        self.msip@
    }

    /// How many harts the device serves.
    pub open spec fn harts(&self) -> nat {
        self.compare().len()
    }

    /// Well-formed: one timer-compare register and one software-interrupt
    /// flag per hart.
    pub open spec fn wf(&self) -> bool {
        self.soft().len() == self.harts()
    }

    /// A fresh device for `nharts` harts, every register zero.
    pub fn new(nharts: usize) -> (c: Clint)
        ensures
            c.wf(),
            c.harts() == nharts,
            c.time() == 0,
            forall|i: int| 0 <= i < nharts ==> c.compare()[i] == 0,
            forall|i: int| 0 <= i < nharts ==> c.soft()[i] == 0,
    {
        let mut mtimecmp: Vec<u64> = Vec::new();
        let mut msip: Vec<u32> = Vec::new();
        while mtimecmp.len() < nharts
            invariant
                mtimecmp.len() <= nharts,
                forall|i: int| 0 <= i < mtimecmp.len() ==> mtimecmp[i] == 0,
            decreases nharts - mtimecmp.len(),
        {
            mtimecmp.push(0);
        }
        while msip.len() < nharts
            invariant
                msip.len() <= nharts,
                forall|i: int| 0 <= i < msip.len() ==> msip[i] == 0,
            decreases nharts - msip.len(),
        {
            msip.push(0);
        }
        Clint { mtime: 0, mtimecmp, msip }
    }

    /// Read the wall-clock counter. A pure read: the device is unchanged,
    /// so two reads with no intervening time see the same value.
    pub fn get_mtime(&self) -> (t: u64)
        ensures
            t == self.time(),
    {
        self.mtime
    }

    /// Program the given hart's timer-compare register, overwriting any
    /// previous deadline for that hart and touching nothing else.
    pub fn set_timer(&mut self, hart_id: usize, instant: u64)
        requires
            old(self).wf(),
            hart_id < old(self).harts(),
        ensures
            final(self).wf(),
            final(self).harts() == old(self).harts(),
            final(self).compare() == old(self).compare().update(hart_id as int, instant),
            final(self).time() == old(self).time(),
            final(self).soft() == old(self).soft(),
    {
        self.mtimecmp.set(hart_id, instant);
    }

    /// Raise the given hart's software-interrupt flag.
    pub fn send_soft(&mut self, hart_id: usize)
        requires
            old(self).wf(),
            hart_id < old(self).harts(),
        ensures
            final(self).wf(),
            final(self).harts() == old(self).harts(),
            final(self).soft() == old(self).soft().update(hart_id as int, 1u32),
            final(self).time() == old(self).time(),
            final(self).compare() == old(self).compare(),
    {
        self.msip.set(hart_id, 1);
    }

    /// Lower the given hart's software-interrupt flag.
    pub fn clear_soft(&mut self, hart_id: usize)
        requires
            old(self).wf(),
            hart_id < old(self).harts(),
        ensures
            final(self).wf(),
            final(self).harts() == old(self).harts(),
            final(self).soft() == old(self).soft().update(hart_id as int, 0u32),
            final(self).time() == old(self).time(),
            final(self).compare() == old(self).compare(),
    {
        self.msip.set(hart_id, 0);
    }

    /// Read back the given hart's timer-compare register.
    pub fn get_mtimecmp(&self, hart_id: usize) -> (v: u64)
        requires
            hart_id < self.harts(),
        ensures
            v == self.compare()[hart_id as int],
    {
        self.mtimecmp[hart_id]
    }

    /// Read back the given hart's software-interrupt flag.
    pub fn get_msip(&self, hart_id: usize) -> (v: u32)
        requires
            self.wf(),
            hart_id < self.harts(),
        ensures
            v == self.soft()[hart_id as int],
    {
        self.msip[hart_id]
    }
}

/// Law: programming one hart's timer-compare register leaves every other
/// hart's register exactly as it was. Stated over `set_timer`'s effect on
/// the compare-register file.
pub proof fn lemma_set_timer_isolates_harts(c: Seq<u64>, hart_id: int, instant: u64, other: int)
    requires
        0 <= hart_id < c.len(),
        0 <= other < c.len(),
        other != hart_id,
    ensures
        c.update(hart_id, instant)[other] == c[other],
{
}

/// Law: two reads of the wall-clock counter with no intervening change of
/// the device return equal values; in particular the second read never
/// decreases below the first.
pub proof fn lemma_read_time_stable(c: Clint, t1: u64, t2: u64)
    requires
        t1 == c.time(),
        t2 == c.time(),
    ensures
        t1 == t2,
        t1 <= t2,
{
}

} // verus!
