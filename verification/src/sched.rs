//! Scheduler state: the fixed task table, the round-robin selection policy,
//! and the switch protocol that hands CPU state from the outgoing task to
//! the incoming one.

use vstd::prelude::*;
use vstd::arithmetic::div_mod::lemma_fundamental_div_mod_converse;

use crate::frame::ExceptionStackFrame;
use crate::registers::TaskRegisters;
use crate::stack::Stack;

verus! {

/// Number of entries in the task table of this build.
pub const NUM_TASKS: usize = 3;

/// The complete schedulable state of one task: a diagnostic name, the saved
/// resumption frame, the stack region, the saved general-purpose registers,
/// and the eligibility flag.
///
/// The fields are independent: the switch protocol writes `esf` only, and
/// never touches `registers` (saving and restoring those around a switch is
/// the external trampoline's job), `stack` or `blocked`. `blocked == true`
/// means the task is ineligible for selection; external code such as a
/// synchronization primitive toggles it.
pub struct TaskEntry {
    pub name: &'static str,
    pub esf: ExceptionStackFrame,
    pub stack: Stack,
    pub registers: TaskRegisters,
    pub blocked: bool,
}

/// The task table. Its size is fixed: a well-formed scheduler holds exactly
/// `NUM_TASKS` entries, created once at kernel initialization.
pub type TaskEntrySlice = Vec<TaskEntry>;

/// The scheduler's whole state: the task table plus the index of the task
/// whose state is live in the CPU (`current_task`) and the index selected to
/// run next (`next_task`).
///
/// `next_task` is scratch state between a call to `schedule_next` and the
/// `mangle_esf_for_next` call that consumes it; a second selection before a
/// switch simply overwrites it. The instance is shared between normal
/// execution and interrupt context for the kernel's whole lifetime, so every
/// access must be guarded by the caller's interrupt-disabling discipline;
/// none of the operations here blocks or suspends.
pub struct TaskStateInformation {
    pub current_task: usize,
    pub next_task: usize,
    pub tasks: TaskEntrySlice,
}

/// The cyclic distance from `cur` forward to `i` in a table of `n` tasks:
/// 1 for the task right after `cur`, up to `n - 1` for the task right
/// before it, and `n` for `cur` itself (a full wrap).
pub open spec fn distance_after(cur: int, i: int, n: int) -> int {
    if i > cur {
        i - cur
    } else {
        i - cur + n
    }
}

/// Whether some task other than `cur` is eligible to run.
pub open spec fn has_other_runnable(tasks: Seq<TaskEntry>, cur: int) -> bool {
    exists|i: int| 0 <= i < tasks.len() && i != cur && !tasks[i].blocked
}

/// The task table after the outgoing task `cur` has its resumption frame
/// replaced by `f`: every other field of that entry, and every other entry,
/// is untouched.
pub open spec fn spec_save_frame(tasks: Seq<TaskEntry>, cur: int, f: ExceptionStackFrame) -> Seq<
    TaskEntry,
>
    recommends
        0 <= cur < tasks.len(),
{
    tasks.update(
        cur,
        (TaskEntry {
            name: tasks[cur].name,
            esf: f,
            stack: tasks[cur].stack,
            registers: tasks[cur].registers,
            blocked: tasks[cur].blocked,
        }),
    )
}

/// The frame a task resumes from when it is switched in.
pub open spec fn spec_resumed_frame(tasks: Seq<TaskEntry>, next: int) -> ExceptionStackFrame
    recommends
        0 <= next < tasks.len(),
{
    tasks[next].esf
}

/// The index reached from `cur` after `k` forward steps in a table of `n`
/// tasks, for `0 <= cur < n` and `cur + k < 2 * n`.
spec fn stepped_index(cur: int, k: int, n: int) -> int {
    if cur + k < n {
        cur + k
    } else {
        cur + k - n
    }
}

/// Round trip of a saved frame: when a task `a` is switched away with frame
/// `f`, and its table entry is not touched between that switch and the
/// moment it is selected again, the switch back hands out exactly `f` — no
/// field of the frame is lost on the way through the table.
pub proof fn lemma_frame_round_trip(
    tasks: Seq<TaskEntry>,
    a: int,
    f: ExceptionStackFrame,
    later: Seq<TaskEntry>,
)
    requires
        0 <= a < tasks.len(),
        a < later.len(),
        later[a] == spec_save_frame(tasks, a, f)[a],
    ensures
        spec_resumed_frame(later, a) == f,
{
}

impl TaskStateInformation {
    /// Both indices are valid and the table has its fixed size.
    pub open spec fn wf(&self) -> bool {
        &&& self.tasks@.len() == NUM_TASKS
        &&& self.current_task < NUM_TASKS
        &&& self.next_task < NUM_TASKS
    }

    /// A fresh scheduler over `tasks`, with task 0 current and no pending
    /// selection.
    pub fn new(tasks: TaskEntrySlice) -> (r: TaskStateInformation)
        requires
            tasks@.len() == NUM_TASKS,
        ensures
            r.wf(),
            r.current_task == 0,
            r.next_task == 0,
            r.tasks@ == tasks@,
    {
        TaskStateInformation { current_task: 0, next_task: 0, tasks }
    }

    /// Chooses the task to run next: the nearest non-blocked task strictly
    /// after `current_task` in cyclic order, or `current_task` itself when
    /// every other task is blocked (even a blocked current task stays
    /// selected then — there is no idle fallback, by design). Returns
    /// whether a switch is warranted, i.e. whether the choice differs from
    /// the current task. Mutates `next_task` and nothing else.
    pub fn schedule_next(&mut self) -> (r: bool)
        requires
            old(self).wf(),
        ensures
            final(self).wf(),
            final(self).tasks@ == old(self).tasks@,
            final(self).current_task == old(self).current_task,
            r == (final(self).next_task != old(self).current_task),
            r == has_other_runnable(old(self).tasks@, old(self).current_task as int),
            r ==> !old(self).tasks@[final(self).next_task as int].blocked,
            !r ==> final(self).next_task == old(self).current_task,
            forall|j: int|
                0 <= j < old(self).tasks@.len() && j != old(self).current_task
                    && distance_after(
                    old(self).current_task as int,
                    j,
                    old(self).tasks@.len() as int,
                ) < distance_after(
                    old(self).current_task as int,
                    final(self).next_task as int,
                    old(self).tasks@.len() as int,
                ) ==> old(self).tasks@[j].blocked,
    {
        let ghost cur = self.current_task as int;
        let ghost n = self.tasks@.len() as int;
        let ghost mut k: int = 0;
        self.next_task = self.current_task;
        loop
            invariant_except_break
                0 <= k < n,
                self.next_task as int == stepped_index(cur, k, n),
                forall|j: int|
                    0 <= j < n && j != cur && distance_after(cur, j, n) <= k ==> old(
                        self,
                    ).tasks@[j].blocked,
            invariant
                self.wf(),
                self.tasks@ == old(self).tasks@,
                self.current_task == old(self).current_task,
                cur == self.current_task as int,
                n == self.tasks@.len() as int,
            ensures
                self.wf(),
                self.tasks@ == old(self).tasks@,
                self.current_task == old(self).current_task,
                self.next_task == self.current_task ==> forall|j: int|
                    0 <= j < n && j != cur ==> old(self).tasks@[j].blocked,
                self.next_task != self.current_task ==> !old(
                    self,
                ).tasks@[self.next_task as int].blocked,
                forall|j: int|
                    0 <= j < n && j != cur && distance_after(cur, j, n) < distance_after(
                        cur,
                        self.next_task as int,
                        n,
                    ) ==> old(self).tasks@[j].blocked,
            decreases n - k,
        {
            let len = self.tasks.len();
            let stepped = (self.next_task + 1) % len;
            proof {
                if self.next_task + 1 < len {
                    lemma_fundamental_div_mod_converse(
                        self.next_task + 1,
                        len as int,
                        0,
                        self.next_task + 1,
                    );
                } else {
                    lemma_fundamental_div_mod_converse(self.next_task + 1, len as int, 1, 0);
                }
                assert(stepped as int == stepped_index(cur, k + 1, n));
            }
            self.next_task = stepped;
            proof {
                k = k + 1;
            }
            proof {
                assert(forall|j: int|
                    0 <= j < n && j != cur && distance_after(cur, j, n) == k ==> j
                        == self.next_task as int);
                assert(distance_after(cur, self.next_task as int, n) == k);
                if k == n {
                    assert forall|j: int| 0 <= j < n && j != cur implies old(
                        self,
                    ).tasks@[j].blocked by {
                        assert(distance_after(cur, j, n) <= k - 1);
                    }
                }
            }
            if !(self.next_task != self.current_task && self.tasks[self.next_task].blocked) {
                break;
            }
        }
        self.next_task != self.current_task
    }

    /// The task whose state is live in the CPU.
    pub fn get_current_task(&self) -> (r: &TaskEntry)
        requires
            self.wf(),
        ensures
            *r == self.tasks@[self.current_task as int],
    {
        &self.tasks[self.current_task]
    }

    /// Mutable access to the live task's entry, for external code that
    /// initializes or unblocks it; the rest of the table and both indices
    /// are untouched.
    pub fn get_current_task_mut(&mut self) -> (r: &mut TaskEntry)
        requires
            old(self).wf(),
        ensures
            *r == old(self).tasks@[old(self).current_task as int],
            final(self).tasks@ == old(self).tasks@.update(
                old(self).current_task as int,
                *final(r),
            ),
            final(self).current_task == old(self).current_task,
            final(self).next_task == old(self).next_task,
            final(self).wf(),
    {
        let cur = self.current_task;
        &mut self.tasks[cur]
    }

    /// Commits the switch that `schedule_next` prepared: saves the incoming
    /// frame `esf` — the resumption point of the task being preempted —
    /// into the outgoing task's entry, transfers exactly the three frame
    /// fields and nothing else, makes `next_task` current, and returns the
    /// frame the incoming task resumes from, for the interrupt-return path
    /// to restore. The caller must save and restore the general-purpose
    /// registers around this call using the entries' `registers` field; this
    /// function never touches them.
    pub fn mangle_esf_for_next(&mut self, esf: &ExceptionStackFrame) -> (r: &ExceptionStackFrame)
        requires
            old(self).wf(),
        ensures
            final(self).wf(),
            final(self).current_task == old(self).next_task,
            final(self).next_task == old(self).next_task,
            final(self).tasks@ == spec_save_frame(
                old(self).tasks@,
                old(self).current_task as int,
                *esf,
            ),
            *r == spec_resumed_frame(final(self).tasks@, old(self).next_task as int),
            old(self).next_task != old(self).current_task ==> *r == old(
                self,
            ).tasks@[old(self).next_task as int].esf,
            old(self).next_task == old(self).current_task ==> *r == *esf,
    {
        let cur = self.current_task;
        let e = &mut self.tasks[cur];
        e.esf.instruction_pointer = esf.instruction_pointer;
        e.esf.stack_pointer = esf.stack_pointer;
        e.esf.cpu_flags = esf.cpu_flags;
        self.current_task = self.next_task;
        proof {
            assert(self.tasks@ =~= spec_save_frame(
                old(self).tasks@,
                old(self).current_task as int,
                *esf,
            ));
        }
        &self.tasks[self.current_task].esf
    }
}

} // verus!
