//! The execution context: the processor state an executor steps, and the
//! typed accessors of the Processor Status Longword.
//!
//! The PSL is a 32-bit status word. Condition codes sit in the low bits,
//! trap enables above them, the current and previous privilege modes in
//! bits 24 through 25 and 22 through 23, and the interrupt-stack,
//! first-part-done and trace-pending flags higher still. Every setter
//! changes its own field and preserves all other bits;
//! `lemma_psl_set_get` states that law once for all bit positions.

use vstd::prelude::*;

use crate::PrivilegeMode;
use crate::bus::VAXBus;
use crate::mmu::MMUView;
use crate::mmu::VAXMMU;
use crate::mmu::mmu_wf;
use crate::spec_mode_from_value;
use crate::spec_mode_value;

verus! {

/// Whether bit `bit` of the PSL word is set.
pub open spec fn psl_bit(psl: u32, bit: u32) -> bool {
    (psl >> bit) & 1 == 1
}

/// The PSL word with bit `bit` set to `val` and every other bit unchanged.
pub open spec fn spec_set_psl_bit(psl: u32, bit: u32, val: bool) -> u32 {
    if val {
        psl | (1u32 << bit)
    } else {
        psl & !(1u32 << bit)
    }
}

/// The two-bit current-mode field of the PSL: bits 24 and 25.
pub open spec fn spec_cur_mode_value(psl: u32) -> int {
    ((psl as int) / 0x100_0000) % 4
}

/// The two-bit previous-mode field of the PSL: bits 22 and 23.
pub open spec fn spec_prev_mode_value(psl: u32) -> int {
    ((psl as int) / 0x40_0000) % 4
}

/// Setting a PSL bit and reading it back yields the value written, and
/// every other bit position keeps its old value.
pub proof fn lemma_psl_set_get(psl: u32, bit: u32, val: bool)
    by (bit_vector)
    requires
        bit < 32,
    ensures
        psl_bit(spec_set_psl_bit(psl, bit, val), bit) == val,
        forall|other: u32|
            other < 32 && other != bit ==> psl_bit(spec_set_psl_bit(psl, bit, val), other)
                == psl_bit(psl, other),
{
}

/// The shadow stack pointer the PSL currently selects for register 14:
/// the interrupt stack pointer when PSL bit 26 is set, otherwise the stack
/// pointer of the current privilege mode.
pub open spec fn spec_active_sp(v: ExecutionContextView) -> u32 {
    if psl_bit(v.psl, 26) {
        v.isp
    } else {
        let m = spec_cur_mode_value(v.psl);
        if m == 0 {
            v.ksp
        } else if m == 1 {
            v.esp
        } else if m == 2 {
            v.ssp
        } else {
            v.usp
        }
    }
}

/// The value of general register `reg`: the program counter for slot 15,
/// the active stack pointer for slot 14, the plain register otherwise.
pub open spec fn spec_reg_value(v: ExecutionContextView, reg: crate::RegID) -> u32 {
    if reg.0 == 15 {
        v.pc
    } else if reg.0 == 14 {
        spec_active_sp(v)
    } else {
        v.gpr[reg.0 as int]
    }
}

/// The processor state after writing `val` to general register `reg`: the
/// program counter for slot 15, the PSL-selected shadow stack pointer for
/// slot 14, the plain register otherwise.
pub open spec fn spec_set_reg(v: ExecutionContextView, reg: crate::RegID, val: u32) -> ExecutionContextView {
    if reg.0 == 15 {
        ExecutionContextView { pc: val, ..v }
    } else if reg.0 == 14 {
        if psl_bit(v.psl, 26) {
            ExecutionContextView { isp: val, ..v }
        } else {
            let m = spec_cur_mode_value(v.psl);
            if m == 0 {
                ExecutionContextView { ksp: val, ..v }
            } else if m == 1 {
                ExecutionContextView { esp: val, ..v }
            } else if m == 2 {
                ExecutionContextView { ssp: val, ..v }
            } else {
                ExecutionContextView { usp: val, ..v }
            }
        }
    } else {
        ExecutionContextView { gpr: v.gpr.update(reg.0 as int, val), ..v }
    }
}

/// The processor state, as the contracts see it.
pub ghost struct ExecutionContextView {
    pub halted: bool,
    pub scbb: u32,
    pub pcbb: u32,
    pub ksp: u32,
    pub esp: u32,
    pub ssp: u32,
    pub usp: u32,
    pub isp: u32,
    pub psl: u32,
    pub pc: u32,
    pub gpr: Seq<u32>,
    pub bus: Seq<u8>,
    pub mmu: MMUView,
}

/// The environment the emulated system executes in: the general registers,
/// the five shadow stack pointers, the PSL, the bus and the MMU.
pub struct ExecutionContext {
    halted: bool,
    scbb: u32,
    pcbb: u32,
    ksp: u32,
    esp: u32,
    ssp: u32,
    usp: u32,
    isp: u32,
    psl: u32,
    pc: u32,
    gpr: [u32; 14],
    bus: VAXBus,
    mmu: VAXMMU,
}

impl View for ExecutionContext {
    type V = ExecutionContextView;

    closed spec fn view(&self) -> ExecutionContextView {
        ExecutionContextView {
            halted: self.halted,
            scbb: self.scbb,
            pcbb: self.pcbb,
            ksp: self.ksp,
            esp: self.esp,
            ssp: self.ssp,
            usp: self.usp,
            isp: self.isp,
            psl: self.psl,
            pc: self.pc,
            gpr: self.gpr@,
            bus: self.bus@,
            mmu: self.mmu@,
        }
    }
}

/// How much RAM a fresh context installs, in bytes.
pub const DEFAULT_RAM_SIZE: usize = 524288;

impl ExecutionContext {
    /// A halted context: every register and the PSL zero, so the processor
    /// starts on the kernel stack in kernel mode, with a fresh bus and a
    /// disabled MMU.
    pub fn new() -> (ctx: ExecutionContext)
        ensures
            ctx@.halted,
            ctx@.scbb == 0 && ctx@.pcbb == 0,
            ctx@.ksp == 0 && ctx@.esp == 0 && ctx@.ssp == 0 && ctx@.usp == 0 && ctx@.isp == 0,
            ctx@.psl == 0,
            ctx@.pc == 0,
            ctx@.gpr.len() == 14,
            forall|i: int| 0 <= i < 14 ==> ctx@.gpr[i] == 0u32,
            ctx@.bus.len() == DEFAULT_RAM_SIZE,
            forall|i: int| 0 <= i < DEFAULT_RAM_SIZE ==> ctx@.bus[i] == 0u8,
            !ctx@.mmu.enabled,
            mmu_wf(ctx@.mmu),
    {
        ExecutionContext {
            halted: true,
            scbb: 0,
            pcbb: 0,
            ksp: 0,
            esp: 0,
            ssp: 0,
            usp: 0,
            isp: 0,
            psl: 0,
            pc: 0,
            gpr: [0; 14],
            bus: VAXBus::new(DEFAULT_RAM_SIZE),
            mmu: VAXMMU::new(),
        }
    }

    /// Read general register `reg`. Slot 15 is the program counter and
    /// slot 14 the active stack pointer, which the PSL selects among the
    /// five shadow pointers.
    pub fn get_reg(&self, reg: crate::RegID) -> (r: u32)
        requires
            reg.0 < 16,
        ensures
            r == spec_reg_value(self@, reg),
    {
        if reg.0 == 15 {
            self.pc
        } else if reg.0 == 14 {
            if self.get_psl_bit(26) {
                self.isp
            } else {
                match self.get_cur_priv_mode() {
                    PrivilegeMode::Kernel => self.ksp,
                    PrivilegeMode::Executive => self.esp,
                    PrivilegeMode::Supervisor => self.ssp,
                    PrivilegeMode::User => self.usp,
                }
            }
        } else {
            self.gpr[reg.0 as usize]
        }
    }

    /// Write general register `reg`. A write to slot 15 moves the program
    /// counter; one to slot 14 lands in whichever shadow stack pointer the
    /// PSL currently selects.
    pub fn set_reg(&mut self, reg: crate::RegID, val: u32)
        requires
            reg.0 < 16,
        ensures
            final(self)@ == spec_set_reg(old(self)@, reg, val),
    {
        if reg.0 == 15 {
            self.pc = val;
        } else if reg.0 == 14 {
            if self.get_psl_bit(26) {
                self.isp = val;
            } else {
                match self.get_cur_priv_mode() {
                    PrivilegeMode::Kernel => self.ksp = val,
                    PrivilegeMode::Executive => self.esp = val,
                    PrivilegeMode::Supervisor => self.ssp = val,
                    PrivilegeMode::User => self.usp = val,
                }
            }
        } else {
            self.gpr[reg.0 as usize] = val;
            proof {
                assert(self@.gpr =~= old(self)@.gpr.update(reg.0 as int, val));
            }
        }
    }

    /// Whether bit `bit` of the PSL is set.
    fn get_psl_bit(&self, bit: u8) -> (r: bool)
        requires
            bit < 32,
        ensures
            r == psl_bit(self@.psl, bit as u32),
    {
        let mask: u32 = 0x01u32 << bit;
        let r = ((self.psl & mask) >> bit) != 0;
        proof {
            let psl = self.psl;
            let b = bit as u32;
            assert(((psl & (0x01u32 << b)) >> b != 0) == ((psl >> b) & 1 == 1)) by (bit_vector)
                requires
                    b < 32,
            ;
        }
        r
    }

    /// Set bit `bit` of the PSL to `val`, preserving every other bit.
    fn set_psl_bit(&mut self, bit: u8, val: bool)
        requires
            bit < 32,
        ensures
            final(self)@ == (ExecutionContextView {
                psl: spec_set_psl_bit(old(self)@.psl, bit as u32, val),
                ..old(self)@
            }),
    {
        let mask: u32 = 0x01u32 << bit;
        let bitval: u32 = if val {
            1
        } else {
            0
        };
        let newpsl = (self.psl & !mask) | (bitval << bit);
        proof {
            let psl = self.psl;
            let b = bit as u32;
            let bv = bitval;
            assert(((psl & !(0x01u32 << b)) | (bv << b)) == (if bv == 1 {
                psl | (1u32 << b)
            } else {
                psl & !(1u32 << b)
            })) by (bit_vector)
                requires
                    b < 32,
                    bv == 0 || bv == 1,
            ;
        }
        self.psl = newpsl;
    }

    /// The privilege mode named by PSL bits 24 and 25.
    pub fn get_cur_priv_mode(&self) -> (r: PrivilegeMode)
        ensures
            r == spec_mode_from_value(spec_cur_mode_value(self@.psl)),
    {
        let v = (self.psl & 0x0300_0000) >> 24;
        proof {
            let psl = self.psl;
            assert((psl & 0x0300_0000) >> 24 == (psl / 0x100_0000) % 4 && (psl & 0x0300_0000) >> 24
                < 4) by (bit_vector);
        }
        match v {
            0 => PrivilegeMode::Kernel,
            1 => PrivilegeMode::Executive,
            2 => PrivilegeMode::Supervisor,
            _ => PrivilegeMode::User,
        }
    }

    /// Store mode `m` in PSL bits 24 and 25, preserving every other bit.
    pub fn set_cur_priv_mode(&mut self, m: PrivilegeMode)
        ensures
            spec_cur_mode_value(final(self)@.psl) == spec_mode_value(m),
            forall|b: u32|
                b < 32 && !(24 <= b < 26) ==> psl_bit(final(self)@.psl, b) == psl_bit(
                    old(self)@.psl,
                    b,
                ),
            final(self)@ == (ExecutionContextView { psl: final(self)@.psl, ..old(self)@ }),
    {
        let mv = m.value();
        let x = (mv << 24) & 0x0300_0000;
        let newpsl = (self.psl & !0x0300_0000) | x;
        proof {
            let psl = self.psl;
            assert((((psl & !0x0300_0000) | ((mv << 24) & 0x0300_0000)) as int / 0x100_0000) % 4
                == mv % 4) by (bit_vector)
                requires
                    mv < 4,
            ;
            assert(forall|b: u32|
                b < 32 && !(24 <= b < 26) ==> psl_bit(
                    (psl & !0x0300_0000) | ((mv << 24) & 0x0300_0000),
                    b,
                ) == psl_bit(psl, b)) by (bit_vector)
                requires
                    mv < 4,
            ;
        }
        self.psl = newpsl;
    }

    /// The privilege mode named by PSL bits 22 and 23: the mode the
    /// processor ran in before the last mode change.
    pub fn get_prev_priv_mode(&self) -> (r: PrivilegeMode)
        ensures
            r == spec_mode_from_value(spec_prev_mode_value(self@.psl)),
    {
        let v = (self.psl & 0x00C0_0000) >> 22;
        proof {
            let psl = self.psl;
            assert((psl & 0x00C0_0000) >> 22 == (psl / 0x40_0000) % 4 && (psl & 0x00C0_0000) >> 22
                < 4) by (bit_vector);
        }
        match v {
            0 => PrivilegeMode::Kernel,
            1 => PrivilegeMode::Executive,
            2 => PrivilegeMode::Supervisor,
            _ => PrivilegeMode::User,
        }
    }

    /// Store mode `m` in PSL bits 22 and 23, preserving every other bit.
    pub fn set_prev_priv_mode(&mut self, m: PrivilegeMode)
        ensures
            spec_prev_mode_value(final(self)@.psl) == spec_mode_value(m),
            forall|b: u32|
                b < 32 && !(22 <= b < 24) ==> psl_bit(final(self)@.psl, b) == psl_bit(
                    old(self)@.psl,
                    b,
                ),
            final(self)@ == (ExecutionContextView { psl: final(self)@.psl, ..old(self)@ }),
    {
        let mv = m.value();
        let x = (mv << 22) & 0x00C0_0000;
        let newpsl = (self.psl & !0x00C0_0000) | x;
        proof {
            let psl = self.psl;
            assert((((psl & !0x00C0_0000) | ((mv << 22) & 0x00C0_0000)) as int / 0x40_0000) % 4
                == mv % 4) by (bit_vector)
                requires
                    mv < 4,
            ;
            assert(forall|b: u32|
                b < 32 && !(22 <= b < 24) ==> psl_bit(
                    (psl & !0x00C0_0000) | ((mv << 22) & 0x00C0_0000),
                    b,
                ) == psl_bit(psl, b)) by (bit_vector)
                requires
                    mv < 4,
            ;
        }
        self.psl = newpsl;
    }

    /// Whether a trace trap is pending: PSL bit 30.
    pub fn get_trace_pending(&self) -> (r: bool)
        ensures
            r == psl_bit(self@.psl, 30),
    {
        self.get_psl_bit(30)
    }

    /// Set the trace-pending flag, preserving every other bit.
    pub fn set_trace_pending(&mut self, val: bool)
        ensures
            final(self)@ == (ExecutionContextView {
                psl: spec_set_psl_bit(old(self)@.psl, 30, val),
                ..old(self)@
            }),
    {
        self.set_psl_bit(30, val)
    }

    /// Whether the first part of an interrupted instruction is done: PSL
    /// bit 27.
    pub fn get_first_part_done(&self) -> (r: bool)
        ensures
            r == psl_bit(self@.psl, 27),
    {
        self.get_psl_bit(27)
    }

    /// Set the first-part-done flag, preserving every other bit.
    pub fn set_first_part_done(&mut self, val: bool)
        ensures
            final(self)@ == (ExecutionContextView {
                psl: spec_set_psl_bit(old(self)@.psl, 27, val),
                ..old(self)@
            }),
    {
        self.set_psl_bit(27, val)
    }

    /// Whether the processor runs on the interrupt stack: PSL bit 26.
    pub fn get_interrupt_stack(&self) -> (r: bool)
        ensures
            r == psl_bit(self@.psl, 26),
    {
        self.get_psl_bit(26)
    }

    /// Set the interrupt-stack flag, preserving every other bit.
    pub fn set_interrupt_stack(&mut self, val: bool)
        ensures
            final(self)@ == (ExecutionContextView {
                psl: spec_set_psl_bit(old(self)@.psl, 26, val),
                ..old(self)@
            }),
    {
        self.set_psl_bit(26, val)
    }

    /// Whether decimal overflow traps are enabled: PSL bit 7.
    pub fn get_decimal_overflow_enable(&self) -> (r: bool)
        ensures
            r == psl_bit(self@.psl, 7),
    {
        self.get_psl_bit(7)
    }

    /// Set the decimal-overflow trap enable, preserving every other bit.
    pub fn set_decimal_overflow_enable(&mut self, val: bool)
        ensures
            final(self)@ == (ExecutionContextView {
                psl: spec_set_psl_bit(old(self)@.psl, 7, val),
                ..old(self)@
            }),
    {
        self.set_psl_bit(7, val)
    }

    /// Whether floating underflow traps are enabled: PSL bit 6.
    pub fn get_floating_underflow_enable(&self) -> (r: bool)
        ensures
            r == psl_bit(self@.psl, 6),
    {
        self.get_psl_bit(6)
    }

    /// Set the floating-underflow trap enable, preserving every other bit.
    pub fn set_floating_underflow_enable(&mut self, val: bool)
        ensures
            final(self)@ == (ExecutionContextView {
                psl: spec_set_psl_bit(old(self)@.psl, 6, val),
                ..old(self)@
            }),
    {
        self.set_psl_bit(6, val)
    }

    /// Whether integer overflow traps are enabled: PSL bit 5.
    pub fn get_integer_overflow_enable(&self) -> (r: bool)
        ensures
            r == psl_bit(self@.psl, 5),
    {
        self.get_psl_bit(5)
    }

    /// Set the integer-overflow trap enable, preserving every other bit.
    pub fn set_integer_overflow_enable(&mut self, val: bool)
        ensures
            final(self)@ == (ExecutionContextView {
                psl: spec_set_psl_bit(old(self)@.psl, 5, val),
                ..old(self)@
            }),
    {
        self.set_psl_bit(5, val)
    }

    /// Whether tracing is enabled: PSL bit 4.
    pub fn get_trace_enable(&self) -> (r: bool)
        ensures
            r == psl_bit(self@.psl, 4),
    {
        self.get_psl_bit(4)
    }

    /// Set the trace enable, preserving every other bit.
    pub fn set_trace_enable(&mut self, val: bool)
        ensures
            final(self)@ == (ExecutionContextView {
                psl: spec_set_psl_bit(old(self)@.psl, 4, val),
                ..old(self)@
            }),
    {
        self.set_psl_bit(4, val)
    }

    /// The negative condition code: PSL bit 3.
    pub fn get_negative(&self) -> (r: bool)
        ensures
            r == psl_bit(self@.psl, 3),
    {
        self.get_psl_bit(3)
    }

    /// Set the negative condition code, preserving every other bit.
    pub fn set_negative(&mut self, val: bool)
        ensures
            final(self)@ == (ExecutionContextView {
                psl: spec_set_psl_bit(old(self)@.psl, 3, val),
                ..old(self)@
            }),
    {
        self.set_psl_bit(3, val)
    }

    /// The zero condition code: PSL bit 1.
    pub fn get_zero(&self) -> (r: bool)
        ensures
            r == psl_bit(self@.psl, 1),
    {
        self.get_psl_bit(1)
    }

    /// Set the zero condition code, preserving every other bit.
    pub fn set_zero(&mut self, val: bool)
        ensures
            final(self)@ == (ExecutionContextView {
                psl: spec_set_psl_bit(old(self)@.psl, 1, val),
                ..old(self)@
            }),
    {
        self.set_psl_bit(1, val)
    }

    /// The carry condition code: PSL bit 0.
    pub fn get_carry(&self) -> (r: bool)
        ensures
            r == psl_bit(self@.psl, 0),
    {
        self.get_psl_bit(0)
    }

    /// Set the carry condition code, preserving every other bit.
    pub fn set_carry(&mut self, val: bool)
        ensures
            final(self)@ == (ExecutionContextView {
                psl: spec_set_psl_bit(old(self)@.psl, 0, val),
                ..old(self)@
            }),
    {
        self.set_psl_bit(0, val)
    }
}

} // verus!
