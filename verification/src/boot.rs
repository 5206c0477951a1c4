//! The boot sequencer.  Hart 0 performs the one-time global initialization
//! steps and then publishes a one-shot readiness flag; every other hart
//! busy-polls the flag and only then runs its per-hart initialization.  The
//! flag makes a single false-to-true transition and is never reset, so a
//! hart that observes it true knows every global step was completed
//! beforehand.  The store fence that orders the publication against the
//! initialization stores is the shell's work; the protocol is here.

use vstd::prelude::*;

verus! {

/// The global initialization steps hart 0 performs exactly once each,
/// before any other hart may proceed.
#[derive(Clone, Copy, PartialEq, Eq, Structural, Debug)]
pub enum BootStep {
    /// Console bring-up.
    Console,
    /// The top-level kernel memory map.
    MemoryMap,
    /// Device probing.
    Devices,
    /// The external interrupt controller.
    InterruptController,
    /// The global process table.
    ProcessTable,
    /// The trap vector.
    TrapVector,
}

/// The boot sequencer's published state: which global steps are done, and
/// whether readiness has been published.
#[derive(Clone, Copy, PartialEq, Eq, Structural, Debug)]
pub struct BootSequencer {
    /// Console brought up.
    pub console: bool,
    /// Top-level memory map built.
    pub memory_map: bool,
    /// Devices probed.
    pub devices: bool,
    /// Interrupt controller initialized.
    pub interrupt_controller: bool,
    /// Process table initialized.
    pub process_table: bool,
    /// Trap vector installed.
    pub trap_vector: bool,
    /// The one-shot readiness flag.
    pub ready: bool,
}

impl BootSequencer {
    /// Whether a given step is recorded done.
    pub open spec fn spec_step_done(&self, step: BootStep) -> bool {
        match step {
            BootStep::Console => self.console,
            BootStep::MemoryMap => self.memory_map,
            BootStep::Devices => self.devices,
            BootStep::InterruptController => self.interrupt_controller,
            BootStep::ProcessTable => self.process_table,
            BootStep::TrapVector => self.trap_vector,
        }
    }

    /// All global initialization is complete.
    pub open spec fn all_done(&self) -> bool {
        self.console && self.memory_map && self.devices && self.interrupt_controller
            && self.process_table && self.trap_vector
    }

    /// The sequencer's invariant: readiness is published only after every
    /// global step completed.
    pub open spec fn wf(&self) -> bool {
        self.ready ==> self.all_done()
    }

    /// The state at power-on: nothing done, readiness unpublished.
    pub fn new() -> (b: BootSequencer)
        ensures
            b.wf(),
            !b.ready,
            forall|s: BootStep| !b.spec_step_done(s),
    {
        let b = BootSequencer {
            console: false,
            memory_map: false,
            devices: false,
            interrupt_controller: false,
            process_table: false,
            trap_vector: false,
            ready: false,
        };
        proof {
            assert forall|s: BootStep| !b.spec_step_done(s) by {}
        }
        b
    }

    /// Whether a given step is recorded done.
    pub fn step_done(&self, step: BootStep) -> (r: bool)
        ensures
            r == self.spec_step_done(step),
    {
        match step {
            BootStep::Console => self.console,
            BootStep::MemoryMap => self.memory_map,
            BootStep::Devices => self.devices,
            BootStep::InterruptController => self.interrupt_controller,
            BootStep::ProcessTable => self.process_table,
            BootStep::TrapVector => self.trap_vector,
        }
    }

    /// Hart 0 records one global step complete.  Each step happens exactly
    /// once, and always before readiness is published; no step is undone.
    pub fn complete_step(&mut self, step: BootStep)
        requires
            old(self).wf(),
            !old(self).ready,
            !old(self).spec_step_done(step),
        ensures
            final(self).wf(),
            final(self).spec_step_done(step),
            !final(self).ready,
            forall|s: BootStep| s != step ==>
                final(self).spec_step_done(s) == old(self).spec_step_done(s),
    {
        match step {
            BootStep::Console => { self.console = true; }
            BootStep::MemoryMap => { self.memory_map = true; }
            BootStep::Devices => { self.devices = true; }
            BootStep::InterruptController => { self.interrupt_controller = true; }
            BootStep::ProcessTable => { self.process_table = true; }
            BootStep::TrapVector => { self.trap_vector = true; }
        }
        proof {
            assert forall|s: BootStep| s != step implies
                final(self).spec_step_done(s) == old(self).spec_step_done(s) by {}
        }
    }

    /// Hart 0 publishes readiness: the flag's single false-to-true
    /// transition, allowed only once every global step is complete.  The
    /// shell precedes the store with a full memory fence.
    pub fn publish_ready(&mut self)
        requires
            old(self).wf(),
            !old(self).ready,
            old(self).all_done(),
        ensures
            final(self).wf(),
            final(self).ready,
            forall|s: BootStep| final(self).spec_step_done(s) == old(self).spec_step_done(s),
    {
        self.ready = true;
        proof {
            assert forall|s: BootStep|
                final(self).spec_step_done(s) == old(self).spec_step_done(s) by {}
        }
    }

    /// A secondary hart's poll of the readiness flag.  Observing `true`
    /// implies hart 0 completed all global initialization beforehand, so
    /// the hart may run its per-hart initialization.
    pub fn observe_ready(&self) -> (r: bool)
        requires
            self.wf(),
        ensures
            r == self.ready,
            r ==> self.all_done(),
    {
        self.ready
    }
}

/// Readiness observed true implies every global initialization step —
/// console, memory map, device probing, interrupt controller, process
/// table, trap vector — completed beforehand.
pub proof fn lemma_ready_implies_initialized(b: BootSequencer)
    requires
        b.wf(),
        b.ready,
    ensures
        b.all_done(),
        forall|s: BootStep| b.spec_step_done(s),
{
    assert forall|s: BootStep| b.spec_step_done(s) by {}
}

} // verus!
