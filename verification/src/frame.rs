//! The captured frame handed over at a preemption: the model of the CPU
//! state that the interrupt entry mechanism saves.

use vstd::prelude::*;

verus! {

/// CPU state captured by the interrupt entry trampoline at the instant of
/// preemption: the resumption point of the interrupted task.
///
/// The scheduler core reads and writes exactly these three fields; whatever
/// else the hardware pushes on an interrupt stays with the interrupt
/// subsystem. The interrupt-return path restores execution from a value of
/// this type together with the matching task's register snapshot.
#[derive(Clone, Copy, Debug, PartialEq, Eq, Structural)]
pub struct ExceptionStackFrame {
    pub instruction_pointer: usize,
    pub stack_pointer: usize,
    pub cpu_flags: u64,
}

} // verus!
