//! The register snapshot of one task: a fixed, hardware-order record of the
//! general-purpose registers, stored wholesale on each save.

use vstd::prelude::*;
use vstd::string::StringExecFns;

use crate::render::spec_decimal;
use crate::render::spec_hex;
use crate::render::decimal_string;
use crate::render::hex_string;

verus! {

/// General-purpose register values of one task, excluding the instruction
/// pointer, stack pointer and flags, which live in the captured frame.
///
/// The field order is a stable contract with the raw save/restore code
/// outside this library: no field may be reordered, padded or added without
/// updating that code. Scheduling logic never mutates single fields; a
/// snapshot is overwritten wholesale on each save.
#[derive(Clone, Copy, Debug, PartialEq, Eq, Structural)]
pub struct TaskRegisters {
    pub rax: usize,
    pub rbx: usize,
    pub rcx: usize,
    pub rdx: usize,
    pub rsi: usize,
    pub rdi: usize,
    pub r8: usize,
    pub r9: usize,
    pub r10: usize,
    pub r11: usize,
    pub r12: usize,
    pub r13: usize,
    pub r14: usize,
    pub r15: usize,
    pub rbp: usize,
}

/// The decimal field-by-field rendering of a snapshot, in register-name
/// order.
pub open spec fn spec_registers_decimal(r: TaskRegisters) -> Seq<char> {
    "rax: "@ + spec_decimal(r.rax as nat) + " rbx: "@ + spec_decimal(r.rbx as nat)
        + " rcx: "@ + spec_decimal(r.rcx as nat) + " rdx: "@ + spec_decimal(r.rdx as nat)
        + " rsi: "@ + spec_decimal(r.rsi as nat) + " rdi: "@ + spec_decimal(r.rdi as nat)
        + " r8:  "@ + spec_decimal(r.r8 as nat) + " r9:  "@ + spec_decimal(r.r9 as nat)
        + " r10: "@ + spec_decimal(r.r10 as nat) + " r11: "@ + spec_decimal(r.r11 as nat)
        + " r12: "@ + spec_decimal(r.r12 as nat) + " r13: "@ + spec_decimal(r.r13 as nat)
        + " r14: "@ + spec_decimal(r.r14 as nat) + " r15: "@ + spec_decimal(r.r15 as nat)
        + " rbp: "@ + spec_decimal(r.rbp as nat)
}

/// The hexadecimal field-by-field rendering of a snapshot, in register-name
/// order, each value with a `0x` prefix.
pub open spec fn spec_registers_hex(r: TaskRegisters) -> Seq<char> {
    "rax: 0x"@ + spec_hex(r.rax as nat) + " rbx: 0x"@ + spec_hex(r.rbx as nat)
        + " rcx: 0x"@ + spec_hex(r.rcx as nat) + " rdx: 0x"@ + spec_hex(r.rdx as nat)
        + " rsi: 0x"@ + spec_hex(r.rsi as nat) + " rdi: 0x"@ + spec_hex(r.rdi as nat)
        + " r8:  0x"@ + spec_hex(r.r8 as nat) + " r9:  0x"@ + spec_hex(r.r9 as nat)
        + " r10: 0x"@ + spec_hex(r.r10 as nat) + " r11: 0x"@ + spec_hex(r.r11 as nat)
        + " r12: 0x"@ + spec_hex(r.r12 as nat) + " r13: 0x"@ + spec_hex(r.r13 as nat)
        + " r14: 0x"@ + spec_hex(r.r14 as nat) + " r15: 0x"@ + spec_hex(r.r15 as nat)
        + " rbp: 0x"@ + spec_hex(r.rbp as nat)
}

impl TaskRegisters {
    /// The all-zero snapshot: the initial state of a task that has not yet
    /// run or whose registers are not yet meaningful.
    pub fn empty() -> (r: TaskRegisters)
        ensures
            r.rax == 0,
            r.rbx == 0,
            r.rcx == 0,
            r.rdx == 0,
            r.rsi == 0,
            r.rdi == 0,
            r.r8 == 0,
            r.r9 == 0,
            r.r10 == 0,
            r.r11 == 0,
            r.r12 == 0,
            r.r13 == 0,
            r.r14 == 0,
            r.r15 == 0,
            r.rbp == 0,
    {
        TaskRegisters {
            rax: 0,
            rbx: 0,
            rcx: 0,
            rdx: 0,
            rsi: 0,
            rdi: 0,
            r8: 0,
            r9: 0,
            r10: 0,
            r11: 0,
            r12: 0,
            r13: 0,
            r14: 0,
            r15: 0,
            rbp: 0,
        }
    }

    /// Renders every register in decimal, matching `spec_registers_decimal`.
    pub fn to_decimal_string(&self) -> (r: String)
        ensures
            r@ == spec_registers_decimal(*self),
    {
        let mut s = String::from_str("rax: ");
        s.append(decimal_string(self.rax).as_str());
        s.append(" rbx: ");
        s.append(decimal_string(self.rbx).as_str());
        s.append(" rcx: ");
        s.append(decimal_string(self.rcx).as_str());
        s.append(" rdx: ");
        s.append(decimal_string(self.rdx).as_str());
        s.append(" rsi: ");
        s.append(decimal_string(self.rsi).as_str());
        s.append(" rdi: ");
        s.append(decimal_string(self.rdi).as_str());
        s.append(" r8:  ");
        s.append(decimal_string(self.r8).as_str());
        s.append(" r9:  ");
        s.append(decimal_string(self.r9).as_str());
        s.append(" r10: ");
        s.append(decimal_string(self.r10).as_str());
        s.append(" r11: ");
        s.append(decimal_string(self.r11).as_str());
        s.append(" r12: ");
        s.append(decimal_string(self.r12).as_str());
        s.append(" r13: ");
        s.append(decimal_string(self.r13).as_str());
        s.append(" r14: ");
        s.append(decimal_string(self.r14).as_str());
        s.append(" r15: ");
        s.append(decimal_string(self.r15).as_str());
        s.append(" rbp: ");
        s.append(decimal_string(self.rbp).as_str());
        proof {
            assert(s@ =~= spec_registers_decimal(*self));
        }
        s
    }

    /// Renders every register in hexadecimal, matching `spec_registers_hex`.
    pub fn to_hex_string(&self) -> (r: String)
        ensures
            r@ == spec_registers_hex(*self),
    {
        let mut s = String::from_str("rax: 0x");
        s.append(hex_string(self.rax).as_str());
        s.append(" rbx: 0x");
        s.append(hex_string(self.rbx).as_str());
        s.append(" rcx: 0x");
        s.append(hex_string(self.rcx).as_str());
        s.append(" rdx: 0x");
        s.append(hex_string(self.rdx).as_str());
        s.append(" rsi: 0x");
        s.append(hex_string(self.rsi).as_str());
        s.append(" rdi: 0x");
        s.append(hex_string(self.rdi).as_str());
        s.append(" r8:  0x");
        s.append(hex_string(self.r8).as_str());
        s.append(" r9:  0x");
        s.append(hex_string(self.r9).as_str());
        s.append(" r10: 0x");
        s.append(hex_string(self.r10).as_str());
        s.append(" r11: 0x");
        s.append(hex_string(self.r11).as_str());
        s.append(" r12: 0x");
        s.append(hex_string(self.r12).as_str());
        s.append(" r13: 0x");
        s.append(hex_string(self.r13).as_str());
        s.append(" r14: 0x");
        s.append(hex_string(self.r14).as_str());
        s.append(" r15: 0x");
        s.append(hex_string(self.r15).as_str());
        s.append(" rbp: 0x");
        s.append(hex_string(self.rbp).as_str());
        proof {
            assert(s@ =~= spec_registers_hex(*self));
        }
        s
    }
}

} // verus!
