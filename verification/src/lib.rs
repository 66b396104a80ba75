//! Task-scheduling and context-switch core of a bare-metal kernel.
//!
//! The library decides which task runs next (round-robin among the tasks that
//! are not blocked) and mediates the hand-off of CPU state between the
//! interrupted task and its successor: an interrupt subsystem captures the
//! CPU state of the preempted task into a frame, asks the scheduler to select
//! a successor, and resumes execution from the frame the scheduler hands
//! back. Saving and restoring general-purpose registers around a switch is
//! the trampoline's job, not this library's; the task table merely stores
//! them.

pub mod frame;
pub mod registers;
pub mod render;
pub mod sched;
pub mod stack;

pub use frame::ExceptionStackFrame;
pub use registers::TaskRegisters;
pub use sched::NUM_TASKS;
pub use sched::TaskEntry;
pub use sched::TaskEntrySlice;
pub use sched::TaskStateInformation;
