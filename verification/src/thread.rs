//! The saved execution context of an enclave thread.
//!
//! While the enclave runs, the context holds the host's registers; while
//! the host runs, it holds the enclave's.  Each switch exchanges the
//! context with the trap frame.
use vstd::prelude::*;
use crate::trap::{GeneralRegs, TrapFrame};

verus! {

/// The execution context kept for one enclave thread.
#[derive(Debug, Clone, Copy, PartialEq, Eq, Structural)]
pub struct State {
    pub prev_state: GeneralRegs,
    pub prev_mepc: usize,
    pub prev_mstatus: usize,
}

impl State {
    /// A fresh context that will start at `mepc` with status `mstatus`.
    pub fn new(mepc: usize, mstatus: usize) -> (s: State)
        ensures
            s.prev_state == GeneralRegs::spec_zeroed(),
            s.prev_mepc == mepc,
            s.prev_mstatus == mstatus,
    {
        State { prev_state: GeneralRegs::zeroed(), prev_mepc: mepc, prev_mstatus: mstatus }
    }

    /// Exchanges the saved general registers with those of the trap frame.
    pub fn swap_prev_state(&mut self, regs: &mut TrapFrame)
        ensures
            final(self).prev_state == old(regs).gprs,
            final(regs).gprs == old(self).prev_state,
            final(self).prev_mepc == old(self).prev_mepc,
            final(self).prev_mstatus == old(self).prev_mstatus,
            final(regs).mepc == old(regs).mepc,
            final(regs).mstatus == old(regs).mstatus,
            final(regs).mstatus_h == old(regs).mstatus_h,
    {
        let saved = self.prev_state;
        self.prev_state = regs.gprs;
        regs.gprs = saved;
    }

    /// Hands the saved program counter to the trap frame and keeps
    /// `current_mepc` in its place.
    pub fn swap_prev_mepc(&mut self, regs: &mut TrapFrame, current_mepc: usize)
        ensures
            final(regs).mepc == old(self).prev_mepc,
            final(self).prev_mepc == current_mepc,
            final(self).prev_state == old(self).prev_state,
            final(self).prev_mstatus == old(self).prev_mstatus,
            final(regs).gprs == old(regs).gprs,
            final(regs).mstatus == old(regs).mstatus,
            final(regs).mstatus_h == old(regs).mstatus_h,
    {
        regs.mepc = self.prev_mepc;
        self.prev_mepc = current_mepc;
    }

    /// Hands the saved status to the trap frame and keeps `current_mstatus`
    /// in its place.
    pub fn swap_prev_mstatus(&mut self, regs: &mut TrapFrame, current_mstatus: usize)
        ensures
            final(regs).mstatus == old(self).prev_mstatus,
            final(self).prev_mstatus == current_mstatus,
            final(self).prev_state == old(self).prev_state,
            final(self).prev_mepc == old(self).prev_mepc,
            final(regs).gprs == old(regs).gprs,
            final(regs).mepc == old(regs).mepc,
            final(regs).mstatus_h == old(regs).mstatus_h,
    {
        regs.mstatus = self.prev_mstatus;
        self.prev_mstatus = current_mstatus;
    }
}

} // verus!
