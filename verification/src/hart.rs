//! The per-hart lifecycle around the resume/dispatch loop: a hart resumes
//! supervisor execution, dispatches each captured trap, and either resumes
//! again or — on an unrecoverable fault — reports full diagnostic context
//! and halts permanently. Halting is terminal per hart: a halted hart makes
//! no further controller writes and produces no further reports. Other
//! harts are unaffected.

use vstd::prelude::*;
use crate::clint::{clint_eq, Clint};
use crate::csr::MachineState;
use crate::execute::{dispatch_resume_post, dispatch_trap, fatal_trap, Disposition, MachineIdent};
use crate::runtime::{MachineTrap, Runtime, SupervisorContext};

verus! {

/// The dispatch-loop state of one hart.
#[derive(Clone, Copy, Debug, PartialEq, Eq, Structural)]
pub enum HartPhase {
    /// Running supervisor code; the next event is a captured trap.
    Resuming,
    /// Permanently parked after a fatal report; not revivable.
    Halted,
}

/// The structured diagnostic a hart emits exactly once, when it fails
/// fatally: its identity, the faulting frame, the trap reason, and the
/// faulting value.
#[derive(Clone, Copy, Debug, PartialEq, Eq, Structural)]
pub struct FatalReport {
    /// The reporting hart.
    pub hart_id: usize,
    /// The frame at the fault.
    pub ctx: SupervisorContext,
    /// The classified trap that proved unrecoverable.
    pub cause: MachineTrap,
    /// The faulting value: the instruction word for an illegal instruction.
    pub tval: usize,
}

/// The diagnostic of the early trap entry, active before the runtime
/// exists: it never resumes — any fault during bring-up is reported with
/// the raw cause and trap value, and the hart halts.
#[derive(Clone, Copy, Debug, PartialEq, Eq, Structural)]
pub struct EarlyTrapReport {
    /// The reporting hart.
    pub hart_id: usize,
    /// The frame the early entry spilled.
    pub ctx: SupervisorContext,
    /// The raw machine cause register value.
    pub mcause: usize,
    /// The raw machine trap value register value.
    pub mtval: usize,
}

/// One hart of the firmware: its lifecycle phase, its runtime with the
/// owned trap frame, its machine-level control state, and the machine
/// identity it reports.
pub struct Hart {
    /// Where the hart stands in its lifecycle.
    pub phase: HartPhase,
    /// The execution runtime owning the trap frame.
    pub rt: Runtime,
    /// The machine-level control state of this hart.
    pub ms: MachineState,
    /// The identity words the base extension reports.
    pub ident: MachineIdent,
}

impl Hart {
    /// A hart about to enter supervisor code for the first time.
    pub fn new(
        supervisor_mepc: usize,
        hart_id: usize,
        opaque: usize,
        ms: MachineState,
        ident: MachineIdent,
    ) -> (h: Hart)
        ensures
            h.phase is Resuming,
            h.rt.hart_id == hart_id,
            h.rt.context == crate::runtime::initial_context(supervisor_mepc, hart_id, opaque),
            h.ms == ms,
            h.ident == ident,
    {
        Hart {
            phase: HartPhase::Resuming,
            rt: Runtime::new_sbi_supervisor(supervisor_mepc, hart_id, opaque),
            ms,
            ident,
        }
    }

    /// Feed one captured trap through the dispatcher. A running hart either
    /// resumes (frame and machine state updated per the dispatch contract)
    /// or halts with a single structured report. A halted hart does
    /// nothing: no state change, no controller write, no report.
    pub fn step(&mut self, clint: &mut Clint, trap: MachineTrap, ins: u32) -> (report: Option<
        FatalReport,
    >)
        requires
            old(clint).wf(),
            old(self).rt.hart_id < old(clint).spec_hart_count(),
        ensures
            final(clint).wf(),
            final(clint).spec_hart_count() == old(clint).spec_hart_count(),
            final(self).rt.hart_id == old(self).rt.hart_id,
            final(self).ident == old(self).ident,
            old(self).phase is Halted ==> {
                &&& final(self).phase is Halted
                &&& final(self).rt == old(self).rt
                &&& final(self).ms == old(self).ms
                &&& clint_eq(*final(clint), *old(clint))
                &&& report is None
            },
            old(self).phase is Resuming && fatal_trap(trap, ins, old(self).ms) ==> {
                &&& final(self).phase is Halted
                &&& final(self).rt == old(self).rt
                &&& final(self).ms == old(self).ms
                &&& clint_eq(*final(clint), *old(clint))
                &&& report == Some(
                    FatalReport {
                        hart_id: old(self).rt.hart_id,
                        ctx: old(self).rt.context,
                        cause: trap,
                        tval: ins as usize,
                    },
                )
            },
            old(self).phase is Resuming && !fatal_trap(trap, ins, old(self).ms) ==> {
                &&& final(self).phase is Resuming
                &&& report is None
                &&& dispatch_resume_post(
                    trap, ins, old(self).rt.hart_id as int, old(self).ident,
                    old(self).rt.context, old(self).ms, *old(clint),
                    final(self).rt.context, final(self).ms, *final(clint))
            },
    {
        match self.phase {
            HartPhase::Halted => None,
            HartPhase::Resuming => {
                let hart_id = self.rt.hart_id;
                let d = dispatch_trap(
                    &mut self.rt.context,
                    &mut self.ms,
                    clint,
                    hart_id,
                    self.ident,
                    trap,
                    ins,
                );
                match d {
                    Disposition::Resume => None,
                    Disposition::Fatal => {
                        self.phase = HartPhase::Halted;
                        Some(
                            FatalReport {
                                hart_id: self.rt.hart_id,
                                ctx: self.rt.context,
                                cause: trap,
                                tval: ins as usize,
                            },
                        )
                    }
                }
            }
        }
    }

    /// The early trap entry's terminal behavior, the fail-safe net before
    /// the runtime exists: report the hart, the spilled frame, the raw
    /// cause and trap value — then the hart is halted for good.
    pub fn early_fault(&mut self, mcause: usize, mtval: usize) -> (report: EarlyTrapReport)
        ensures
            final(self).phase is Halted,
            final(self).rt == old(self).rt,
            final(self).ms == old(self).ms,
            final(self).ident == old(self).ident,
            report == (EarlyTrapReport {
                hart_id: old(self).rt.hart_id,
                ctx: old(self).rt.context,
                mcause,
                mtval,
            }),
    {
        self.phase = HartPhase::Halted;
        EarlyTrapReport { hart_id: self.rt.hart_id, ctx: self.rt.context, mcause, mtval }
    }
}

/// The lifecycle phase after one dispatch outcome.
pub open spec fn phase_step(p: HartPhase, fatal: bool) -> HartPhase {
    match p {
        HartPhase::Halted => HartPhase::Halted,
        HartPhase::Resuming => if fatal {
            HartPhase::Halted
        } else {
            HartPhase::Resuming
        },
    }
}

/// The lifecycle phase after a run of dispatch outcomes.
pub open spec fn phase_run(p: HartPhase, fatals: Seq<bool>) -> HartPhase
    decreases fatals.len(),
{
    if fatals.len() == 0 {
        p
    } else {
        phase_run(phase_step(p, fatals[0]), fatals.drop_first())
    }
}

/// Fatal halt is terminal: a halted hart stays halted across any run of
/// dispatch outcomes — and by the step contract, a halted hart changes no
/// state, writes nothing to the controller, and emits no further report.
pub proof fn lemma_fatal_halt_terminal(p: HartPhase, fatals: Seq<bool>)
    requires
        p is Halted,
    ensures
        phase_run(p, fatals) is Halted,
    decreases fatals.len(),
{
    if fatals.len() > 0 {
        lemma_fatal_halt_terminal(phase_step(p, fatals[0]), fatals.drop_first());
    }
}

} // verus!
