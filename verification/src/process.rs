//! The process model: the per-process state machine, the global process
//! table, and the invariants the scheduler relies on — every state change
//! follows an edge of the state machine, and at any instant at most one
//! process is RUNNING on each hart.

use vstd::prelude::*;
use crate::frame::TrapFrame;

verus! {

/// The lifecycle states of a process.
#[derive(Clone, Copy, PartialEq, Eq, Structural, Debug)]
pub enum ProcState {
    /// Slot holds no process.
    Unused,
    /// Allocated, still being initialized.
    Embryo,
    /// Blocked in a waiting state.
    Sleeping,
    /// Ready to be picked by a scheduler.
    Runnable,
    /// Currently executing on some hart.
    Running,
    /// Exited, awaiting reaping by its parent.
    Zombie,
}

/// The edges of the process state machine.  Any state change outside this
/// relation is a defect.
pub open spec fn valid_transition(from: ProcState, to: ProcState) -> bool {
    ||| (from == ProcState::Unused && to == ProcState::Embryo)
    ||| (from == ProcState::Embryo && to == ProcState::Runnable)
    ||| (from == ProcState::Runnable && to == ProcState::Running)
    ||| (from == ProcState::Running && to == ProcState::Runnable)
    ||| (from == ProcState::Running && to == ProcState::Sleeping)
    ||| (from == ProcState::Sleeping && to == ProcState::Runnable)
    ||| (from == ProcState::Running && to == ProcState::Zombie)
    ||| (from == ProcState::Zombie && to == ProcState::Unused)
}

/// One process descriptor.
#[derive(Clone, Copy)]
pub struct Process {
    /// Process identity.
    pub pid: u64,
    /// Position in the state machine.
    pub state: ProcState,
    /// The hart this process is running on, exactly while it is RUNNING.
    pub owner: Option<u64>,
    /// Saved user-register snapshot; untouched by context switches.
    pub frame: TrapFrame,
    /// Saved kernel stack pointer for the scheduler's context switch.
    pub kernel_sp: u64,
    /// Opaque, page-aligned address-space handle; released on reap.
    pub satp: u64,
}

/// A process records an owning hart exactly while it is RUNNING.
pub open spec fn owner_consistent(s: Seq<Process>) -> bool {
    forall|i: int| 0 <= i < s.len() ==>
        ((#[trigger] s[i].state) == ProcState::Running <==> s[i].owner is Some)
}

/// At most one process is RUNNING on any hart at any instant.
pub open spec fn one_running_per_hart(s: Seq<Process>) -> bool {
    forall|i: int, j: int|
        0 <= i < s.len() && 0 <= j < s.len() && i != j
            && (#[trigger] s[i].state) == ProcState::Running
            && (#[trigger] s[j].state) == ProcState::Running
            ==> s[i].owner != s[j].owner
}

/// Well-formedness of a process table, established at boot and preserved by
/// every operation.
pub open spec fn table_wf(s: Seq<Process>) -> bool {
    owner_consistent(s) && one_running_per_hart(s)
}

/// No process is RUNNING on hart `h`.
pub open spec fn hart_idle(s: Seq<Process>, h: u64) -> bool {
    forall|i: int| 0 <= i < s.len() ==>
        !((#[trigger] s[i].state) == ProcState::Running && s[i].owner == Some(h))
}

/// The table after scheduling process `i` onto hart `h`.
pub open spec fn spec_dispatch(s: Seq<Process>, i: int, h: u64) -> Seq<Process> {
    s.update(i, Process { state: ProcState::Running, owner: Some(h), ..s[i] })
}

/// The table after process `i` stops running and re-enters state `to`
/// (RUNNABLE on preemption or yield, SLEEPING on a blocking wait, ZOMBIE on
/// exit).
pub open spec fn spec_stop_running(s: Seq<Process>, i: int, to: ProcState) -> Seq<Process> {
    s.update(i, Process { state: to, owner: None, ..s[i] })
}

/// The global process table.  Allocated once at boot; guarded at run time by
/// the table lock, held with interrupts off.
pub struct ProcTable {
    /// The process slots.
    pub procs: Vec<Process>,
}

impl ProcTable {
    /// The table's mathematical content.
    pub open spec fn view(&self) -> Seq<Process> {
        self.procs@
    }

    /// Well-formedness: see [`table_wf`].
    pub open spec fn wf(&self) -> bool {
        table_wf(self@)
    }

    /// A fresh table of `n` empty slots, each carrying its index as pid.
    pub fn new(n: usize) -> (t: ProcTable)
        ensures
            t.wf(),
            t@.len() == n,
            forall|i: int| 0 <= i < n ==> (#[trigger] t@[i].state) == ProcState::Unused,
    {
        let mut procs: Vec<Process> = Vec::new();
        let mut k: usize = 0;
        while k < n
            invariant
                k <= n,
                procs@.len() == k,
                forall|i: int| 0 <= i < k ==> (#[trigger] procs@[i].state) == ProcState::Unused,
                forall|i: int| 0 <= i < k ==> (#[trigger] procs@[i].owner) is None,
            decreases n - k,
        {
            procs.push(Process {
                pid: k as u64,
                state: ProcState::Unused,
                owner: None,
                frame: TrapFrame::zeroed(),
                kernel_sp: 0,
                satp: 0,
            });
            k = k + 1;
        }
        let t = ProcTable { procs };
        proof {
            assert forall|i: int| 0 <= i < t@.len() implies
                ((#[trigger] t@[i].state) == ProcState::Running <==> t@[i].owner is Some) by {
                assert(t@[i].state == ProcState::Unused);
            }
        }
        t
    }

    /// Number of slots.
    pub fn len(&self) -> (n: usize)
        ensures
            n == self@.len(),
    {
        self.procs.len()
    }

    /// The state of slot `i`.
    pub fn state_of(&self, i: usize) -> (st: ProcState)
        requires
            i < self@.len(),
        ensures
            st == self@[i as int].state,
    {
        self.procs[i].state
    }

    /// The owning hart of slot `i`, present exactly while it is RUNNING.
    pub fn owner_of(&self, i: usize) -> (h: Option<u64>)
        requires
            i < self@.len(),
        ensures
            h == self@[i as int].owner,
    {
        self.procs[i].owner
    }

    /// The saved trap frame of slot `i`.
    pub fn frame_of(&self, i: usize) -> (f: TrapFrame)
        requires
            i < self@.len(),
        ensures
            f == self@[i as int].frame,
    {
        self.procs[i].frame
    }

    /// Writes the trap frame of slot `i`, as the trap entry path does when
    /// it saves the interrupted context.
    pub fn set_frame(&mut self, i: usize, f: TrapFrame)
        requires
            old(self).wf(),
            i < old(self)@.len(),
        ensures
            final(self).wf(),
            final(self)@ == old(self)@.update(i as int, Process { frame: f, ..old(self)@[i as int] }),
            final(self)@[i as int].state == old(self)@[i as int].state,
            final(self)@[i as int].frame == f,
    {
        let mut p = self.procs[i];
        p.frame = f;
        self.procs[i] = p;
        proof {
            lemma_same_states_preserve_wf(old(self)@, self@);
        }
    }

    /// Allocation: claims an UNUSED slot for a new process.
    pub fn allocate(&mut self, i: usize, pid: u64) -> (r: bool)
        requires
            old(self).wf(),
            i < old(self)@.len(),
        ensures
            final(self).wf(),
            final(self)@.len() == old(self)@.len(),
            r == (old(self)@[i as int].state == ProcState::Unused),
            r ==> final(self)@ == old(self)@.update(i as int, Process {
                pid,
                state: ProcState::Embryo,
                owner: None,
                frame: old(self)@[i as int].frame,
                kernel_sp: old(self)@[i as int].kernel_sp,
                satp: old(self)@[i as int].satp,
            }),
            r ==> valid_transition(old(self)@[i as int].state, final(self)@[i as int].state),
            !r ==> final(self)@ == old(self)@,
    {
        let p = self.procs[i];
        match p.state {
            ProcState::Unused => {
                let q = Process { pid, state: ProcState::Embryo, ..p };
                self.procs[i] = q;
                proof {
                    lemma_non_running_update_preserves_wf(old(self)@, i as int, q);
                }
                true
            }
            _ => false,
        }
    }

    /// Initialization complete: an EMBRYO becomes RUNNABLE.
    pub fn make_runnable(&mut self, i: usize)
        requires
            old(self).wf(),
            i < old(self)@.len(),
            old(self)@[i as int].state == ProcState::Embryo,
        ensures
            final(self).wf(),
            final(self)@ == old(self)@.update(i as int, Process {
                state: ProcState::Runnable,
                ..old(self)@[i as int]
            }),
            valid_transition(old(self)@[i as int].state, final(self)@[i as int].state),
            final(self)@[i as int].frame == old(self)@[i as int].frame,
    {
        let mut p = self.procs[i];
        p.state = ProcState::Runnable;
        self.procs[i] = p;
        proof {
            lemma_non_running_update_preserves_wf(old(self)@, i as int, p);
        }
    }

    /// Wakeup: a SLEEPING process becomes RUNNABLE.
    pub fn wakeup(&mut self, i: usize)
        requires
            old(self).wf(),
            i < old(self)@.len(),
            old(self)@[i as int].state == ProcState::Sleeping,
        ensures
            final(self).wf(),
            final(self)@ == old(self)@.update(i as int, Process {
                state: ProcState::Runnable,
                ..old(self)@[i as int]
            }),
            valid_transition(old(self)@[i as int].state, final(self)@[i as int].state),
            final(self)@[i as int].frame == old(self)@[i as int].frame,
    {
        let mut p = self.procs[i];
        p.state = ProcState::Runnable;
        self.procs[i] = p;
        proof {
            lemma_non_running_update_preserves_wf(old(self)@, i as int, p);
        }
    }

    /// Reaping: a ZOMBIE slot returns to UNUSED and its address-space handle
    /// is released.
    pub fn reap(&mut self, i: usize)
        requires
            old(self).wf(),
            i < old(self)@.len(),
            old(self)@[i as int].state == ProcState::Zombie,
        ensures
            final(self).wf(),
            final(self)@ == old(self)@.update(i as int, Process {
                state: ProcState::Unused,
                satp: 0,
                ..old(self)@[i as int]
            }),
            valid_transition(old(self)@[i as int].state, final(self)@[i as int].state),
    {
        let mut p = self.procs[i];
        p.state = ProcState::Unused;
        p.satp = 0;
        self.procs[i] = p;
        proof {
            lemma_non_running_update_preserves_wf(old(self)@, i as int, p);
        }
    }

    /// Scheduling: hart `h`, currently running nothing, switches into the
    /// RUNNABLE process `i`.  The process's trap frame is not touched.
    pub fn dispatch(&mut self, i: usize, h: u64)
        requires
            old(self).wf(),
            i < old(self)@.len(),
            old(self)@[i as int].state == ProcState::Runnable,
            hart_idle(old(self)@, h),
        ensures
            final(self).wf(),
            final(self)@ == spec_dispatch(old(self)@, i as int, h),
            final(self)@[i as int].state == ProcState::Running,
            final(self)@[i as int].owner == Some(h),
            final(self)@[i as int].frame == old(self)@[i as int].frame,
            valid_transition(old(self)@[i as int].state, final(self)@[i as int].state),
    {
        let mut p = self.procs[i];
        p.state = ProcState::Running;
        p.owner = Some(h);
        self.procs[i] = p;
        proof {
            lemma_dispatch_preserves_wf(old(self)@, i as int, h);
        }
    }

    /// A RUNNING process stops running: RUNNABLE on preemption or voluntary
    /// yield, SLEEPING on a blocking wait, ZOMBIE on exit.  Its hart becomes
    /// free and its trap frame is not touched.
    pub fn stop_running(&mut self, i: usize, to: ProcState)
        requires
            old(self).wf(),
            i < old(self)@.len(),
            old(self)@[i as int].state == ProcState::Running,
            to == ProcState::Runnable || to == ProcState::Sleeping || to == ProcState::Zombie,
        ensures
            final(self).wf(),
            final(self)@ == spec_stop_running(old(self)@, i as int, to),
            final(self)@[i as int].state == to,
            final(self)@[i as int].frame == old(self)@[i as int].frame,
            valid_transition(old(self)@[i as int].state, final(self)@[i as int].state),
            hart_idle(final(self)@, old(self)@[i as int].owner->0),
    {
        let mut p = self.procs[i];
        p.state = to;
        p.owner = None;
        self.procs[i] = p;
        proof {
            lemma_non_running_update_preserves_wf(old(self)@, i as int, p);
            let h = old(self)@[i as int].owner->0;
            assert forall|j: int| 0 <= j < self@.len() implies
                !((#[trigger] self@[j].state) == ProcState::Running
                    && self@[j].owner == Some(h)) by {
                if j != i as int && self@[j].state == ProcState::Running {
                    assert(old(self)@[j].state == ProcState::Running);
                    assert(old(self)@[j].owner != old(self)@[i as int].owner);
                    assert(old(self)@[i as int].owner == Some(h));
                }
            }
        }
    }

    /// The process RUNNING on hart `h`, if there is one.  By
    /// [`one_running_per_hart`] it is unique.
    pub fn running_on(&self, h: u64) -> (r: Option<usize>)
        requires
            self.wf(),
        ensures
            match r {
                Some(i) => i < self@.len() && self@[i as int].state == ProcState::Running
                    && self@[i as int].owner == Some(h),
                None => hart_idle(self@, h),
            },
    {
        let n = self.procs.len();
        let mut k: usize = 0;
        while k < n
            invariant
                k <= n,
                n == self@.len(),
                forall|j: int| 0 <= j < k ==>
                    !((#[trigger] self@[j].state) == ProcState::Running
                        && self@[j].owner == Some(h)),
            decreases n - k,
        {
            let p = self.procs[k];
            match (p.state, p.owner) {
                (ProcState::Running, Some(o)) => {
                    if o == h {
                        return Some(k);
                    }
                }
                _ => {}
            }
            k = k + 1;
        }
        None
    }

    /// The scheduler's linear scan: the first RUNNABLE slot, if any.
    pub fn select_runnable(&self) -> (r: Option<usize>)
        ensures
            match r {
                Some(i) => i < self@.len() && self@[i as int].state == ProcState::Runnable
                    && (forall|j: int| 0 <= j < i ==>
                        (#[trigger] self@[j].state) != ProcState::Runnable),
                None => forall|j: int| 0 <= j < self@.len() ==>
                    (#[trigger] self@[j].state) != ProcState::Runnable,
            },
    {
        let n = self.procs.len();
        let mut k: usize = 0;
        while k < n
            invariant
                k <= n,
                n == self@.len(),
                forall|j: int| 0 <= j < k ==> (#[trigger] self@[j].state) != ProcState::Runnable,
            decreases n - k,
        {
            let p = self.procs[k];
            match p.state {
                ProcState::Runnable => {
                    return Some(k);
                }
                _ => {}
            }
            k = k + 1;
        }
        None
    }
}

/// An update that leaves every slot's state and owner as they were preserves
/// well-formedness.
proof fn lemma_same_states_preserve_wf(s0: Seq<Process>, s1: Seq<Process>)
    requires
        table_wf(s0),
        s1.len() == s0.len(),
        forall|i: int| 0 <= i < s0.len() ==>
            (#[trigger] s1[i].state) == s0[i].state && s1[i].owner == s0[i].owner,
    ensures
        table_wf(s1),
{
}

/// Replacing one slot by a non-RUNNING descriptor with no owner preserves
/// well-formedness: it can only remove a running process, never add one.
proof fn lemma_non_running_update_preserves_wf(s: Seq<Process>, i: int, p: Process)
    requires
        table_wf(s),
        0 <= i < s.len(),
        p.state != ProcState::Running,
        p.owner is None,
    ensures
        table_wf(s.update(i, p)),
{
    let s1 = s.update(i, p);
    assert forall|a: int, b: int|
        0 <= a < s1.len() && 0 <= b < s1.len() && a != b
            && (#[trigger] s1[a].state) == ProcState::Running
            && (#[trigger] s1[b].state) == ProcState::Running
            implies s1[a].owner != s1[b].owner by {
        assert(s1[a] == s[a] && s1[b] == s[b]);
    }
}

/// Dispatching a RUNNABLE process onto an idle hart preserves
/// well-formedness: the new RUNNING process is the only one owned by that
/// hart.
proof fn lemma_dispatch_preserves_wf(s: Seq<Process>, i: int, h: u64)
    requires
        table_wf(s),
        0 <= i < s.len(),
        s[i].state == ProcState::Runnable,
        hart_idle(s, h),
    ensures
        table_wf(spec_dispatch(s, i, h)),
{
    let s1 = spec_dispatch(s, i, h);
    assert forall|a: int, b: int|
        0 <= a < s1.len() && 0 <= b < s1.len() && a != b
            && (#[trigger] s1[a].state) == ProcState::Running
            && (#[trigger] s1[b].state) == ProcState::Running
            implies s1[a].owner != s1[b].owner by {
        if a == i {
            assert(s1[b] == s[b]);
            assert(s[b].owner != Some(h));
        } else if b == i {
            assert(s1[a] == s[a]);
            assert(s[a].owner != Some(h));
        } else {
            assert(s1[a] == s[a] && s1[b] == s[b]);
        }
    }
}

/// At most one process is RUNNING on a given hart: two RUNNING slots owned
/// by the same hart are the same slot.
pub proof fn lemma_running_unique(s: Seq<Process>, h: u64, i: int, j: int)
    requires
        table_wf(s),
        0 <= i < s.len(),
        0 <= j < s.len(),
        s[i].state == ProcState::Running,
        s[j].state == ProcState::Running,
        s[i].owner == Some(h),
        s[j].owner == Some(h),
    ensures
        i == j,
{
}

} // verus!
