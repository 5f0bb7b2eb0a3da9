//! Core of a VAX emulator: instruction decoding, operand addressing, and
//! memory management.
//!
//! The crate covers the CPU front-half: the instruction decoder (a two-tier
//! opcode space of one- and two-byte opcodes), the operand-addressing
//! interpreter (the sixteen primary addressing modes), and the MMU that
//! translates virtual addresses and enforces per-page protection against the
//! current privilege mode.

use vstd::prelude::*;

pub mod stream;
pub mod instrs;
pub mod instrtypes;
pub mod instrparse;
pub mod bus;
pub mod mmu;
pub mod execution;
pub mod registers;
pub mod sysclk;

verus! {

/// Identifier of one of the sixteen general registers; the value is in
/// the range 0 through 15. Register 14 is the active stack pointer and
/// register 15 the program counter.
#[derive(Copy, Clone, Debug, PartialEq, Eq, Structural)]
pub struct RegID(pub u8);

/// One of the four processor access modes. Numerical order matters:
/// lower values are more privileged.
#[derive(Copy, Clone, Debug, PartialEq, Eq, PartialOrd, Ord, Hash, Structural)]
pub enum PrivilegeMode {
    Kernel,
    Executive,
    Supervisor,
    User,
}

/// The numeric encoding of a privilege mode, as stored in the PSL
/// current-mode and previous-mode fields.
pub open spec fn spec_mode_value(m: PrivilegeMode) -> u32 {
    match m {
        PrivilegeMode::Kernel => 0,
        PrivilegeMode::Executive => 1,
        PrivilegeMode::Supervisor => 2,
        PrivilegeMode::User => 3,
    }
}

/// The privilege mode encoded by a two-bit value.
pub open spec fn spec_mode_from_value(v: int) -> PrivilegeMode {
    if v == 0 {
        PrivilegeMode::Kernel
    } else if v == 1 {
        PrivilegeMode::Executive
    } else if v == 2 {
        PrivilegeMode::Supervisor
    } else {
        PrivilegeMode::User
    }
}

impl PrivilegeMode {
    /// The numeric encoding of this mode.
    pub fn value(self) -> (r: u32)
        ensures
            r == spec_mode_value(self),
    {
        match self {
            PrivilegeMode::Kernel => 0,
            PrivilegeMode::Executive => 1,
            PrivilegeMode::Supervisor => 2,
            PrivilegeMode::User => 3,
        }
    }

    /// The mode encoded by a two-bit value.
    pub fn from_value(v: u32) -> (r: Option<PrivilegeMode>)
        ensures
            v <= 3 ==> (r matches Some(m) && spec_mode_value(m) == v),
            v > 3 ==> r is None,
    {
        match v {
            0 => Some(PrivilegeMode::Kernel),
            1 => Some(PrivilegeMode::Executive),
            2 => Some(PrivilegeMode::Supervisor),
            3 => Some(PrivilegeMode::User),
            _ => None,
        }
    }
}

} // verus!
