//! Memory-region descriptor for a task's stack: an inclusive address range
//! that answers containment queries.

use vstd::prelude::*;
use vstd::string::StringExecFns;

use crate::render::hex_string;
use crate::render::spec_hex;

verus! {

/// The hexadecimal rendering of a stack region, both bounds prefixed with
/// `0x` and separated by `..`.
pub open spec fn spec_stack_hex(s: Stack) -> Seq<char> {
    "0x"@ + spec_hex(s.bottom as nat) + "..0x"@ + spec_hex(s.top as nat)
}

/// Describes a task's stack as an inclusive address range.
///
/// A well-formed descriptor has `bottom <= top`. Both ends belong to the
/// region, deliberately, so that the top-of-stack sentinel address counts as
/// contained. A descriptor is created once, when the task table is set up,
/// and is immutable afterwards; every task record is taken to carry a fully
/// prepared stack, so no separate "is initialized" query is offered.
#[derive(Clone, Copy, Debug, PartialEq, Eq, Structural)]
pub struct Stack {
    pub bottom: usize,
    pub top: usize,
}

impl Stack {
    /// The bounds are ordered, so the range is non-empty.
    pub open spec fn wf(&self) -> bool {
        self.bottom <= self.top
    }

    /// Whether address `t` lies within the region, inclusive at both ends.
    pub fn contains(&self, t: usize) -> (r: bool)
        ensures
            r == (self.bottom <= t && t <= self.top),
    {
        self.bottom <= t && t <= self.top
    }

    /// Renders the region as a hexadecimal range, matching `spec_stack_hex`.
    pub fn to_hex_string(&self) -> (r: String)
        ensures
            r@ == spec_stack_hex(*self),
    {
        let mut s = String::from_str("0x");
        s.append(hex_string(self.bottom).as_str());
        s.append("..0x");
        s.append(hex_string(self.top).as_str());
        proof {
            assert(s@ =~= spec_stack_hex(*self));
        }
        s
    }
}

} // verus!
