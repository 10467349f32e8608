//! The stuck-guest watchdog: on each host timer exit it checks whether the
//! guest sits at one pc with external interrupts masked while one is
//! pending, and after a few such exits in a row unmasks them.
use vstd::prelude::*;

verus! {

/// Consecutive stuck observations after which interrupts are forced on.
pub const STUCK_LIMIT: u64 = 3;
/// `vsstatus.SIE`.
pub const VSSTATUS_SIE: u64 = 0x2;
/// `vsie.SEIE`.
pub const VSIE_SEIE: u64 = 0x200;
/// `hip.VSEIP`.
pub const HIP_VSEIP: u64 = 0x400;

/// Whether a timer exit at `sepc`, after one at `last_sepc`, finds the guest
/// stuck: same pc, SIE or SEIE off, VSEIP pending.
pub open spec fn is_stuck(sepc: u64, last_sepc: u64, vsstatus: u64, vsie: u64, hip: u64) -> bool {
    sepc == last_sepc && ((vsstatus & VSSTATUS_SIE) == 0 || (vsie & VSIE_SEIE) == 0) && (hip & HIP_VSEIP)
        != 0
}

/// Per-hart state of the watchdog.
#[derive(Clone, Copy, Debug, PartialEq, Eq, Structural)]
pub struct Watchdog {
    /// Guest pc at the last timer exit.
    pub last_sepc: u64,
    /// Stuck observations in a row so far.
    pub stuck_count: u64,
}

impl Watchdog {
    /// A watchdog that has seen nothing.
    pub fn new() -> (r: Self)
        ensures
            r == (Watchdog { last_sepc: 0, stuck_count: 0 }),
    {
        Watchdog { last_sepc: 0, stuck_count: 0 }
    }

    /// Records a timer exit at guest pc `sepc`, with the guest's `vsstatus`
    /// and `vsie` and the hart's `hip`. Returns the `vsstatus` and `vsie` to
    /// write (SIE and SEIE set) when this is the last of `STUCK_LIMIT` stuck
    /// exits in a row.
    pub fn observe(&mut self, sepc: u64, vsstatus: u64, vsie: u64, hip: u64) -> (r: Option<(u64, u64)>)
        ensures
            final(self).last_sepc == sepc,
            is_stuck(sepc, old(self).last_sepc, vsstatus, vsie, hip) && old(self).stuck_count + 1
                >= STUCK_LIMIT ==> r == Some((vsstatus | VSSTATUS_SIE, vsie | VSIE_SEIE))
                && final(self).stuck_count == 0,
            is_stuck(sepc, old(self).last_sepc, vsstatus, vsie, hip) && old(self).stuck_count + 1
                < STUCK_LIMIT ==> r is None && final(self).stuck_count == old(self).stuck_count + 1,
            !is_stuck(sepc, old(self).last_sepc, vsstatus, vsie, hip) ==> r is None
                && final(self).stuck_count == 0,
    {
        let last = self.last_sepc;
        self.last_sepc = sepc;
        let stuck = sepc == last && ((vsstatus & VSSTATUS_SIE) == 0 || (vsie & VSIE_SEIE) == 0)
            && (hip & HIP_VSEIP) != 0;
        if stuck {
            if self.stuck_count >= STUCK_LIMIT - 1 {
                self.stuck_count = 0;
                Some((vsstatus | VSSTATUS_SIE, vsie | VSIE_SEIE))
            } else {
                self.stuck_count = self.stuck_count + 1;
                None
            }
        } else {
            self.stuck_count = 0;
            None
        }
    }
}

} // verus!
