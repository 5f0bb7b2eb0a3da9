//! The privileged (internal processor) registers, as MFPR and MTPR name
//! them.

use vstd::prelude::*;

verus! {

/// The privileged registers. Each carries a fixed processor-register
/// number; `register_number` gives the mapping and `from_number` reads it
/// back.
#[derive(Copy, Clone, Debug, PartialEq, Eq, PartialOrd, Ord, Hash, Structural)]
pub enum PrivRegisters {
    /// Kernel Stack Pointer
    KSP,
    /// Executive Stack Pointer
    ESP,
    /// Supervisor Stack Pointer
    SSP,
    /// User Stack Pointer
    USP,
    /// Interrupt Stack Pointer
    ISP,
    /// Address Space Number
    ASN,
    /// P0 Base Register
    P0BR,
    /// P0 Length Register
    POLR,
    /// P1 Base Register
    P1BR,
    /// P1 Length Register
    P1LR,
    /// System Base Register
    SBR,
    /// System Length Register
    SLR,
    /// CPU Identification
    CPUID,
    /// Process Control Block Base
    PCBB,
    /// System Control Block Base
    SCBB,
    /// Interrupt Priority Level
    IPL,
    /// AST Level
    ASTLVL,
    /// Software Interrupt Request
    SIRR,
    /// Software Interrupt Summary
    SISR,
    /// Interval Clock Control
    ICCS,
    /// Next Interval Count
    NICR,
    /// Interval Count
    ICR,
    /// Time of Year
    TODR,
    /// Console Receiver Status
    RXCS,
    /// Console Receiver Data Buffer
    RXDB,
    /// Console Transmit Status
    TXCS,
    /// Console Transmit Data Buffer
    TXDB,
    /// Memory Management Enable
    MAPEN,
}

/// The processor-register number of each privileged register.
pub open spec fn spec_register_number(r: PrivRegisters) -> int {
    match r {
        PrivRegisters::KSP => 0,
        PrivRegisters::ESP => 1,
        PrivRegisters::SSP => 2,
        PrivRegisters::USP => 3,
        PrivRegisters::ISP => 4,
        PrivRegisters::ASN => 6,
        PrivRegisters::P0BR => 8,
        PrivRegisters::POLR => 9,
        PrivRegisters::P1BR => 10,
        PrivRegisters::P1LR => 11,
        PrivRegisters::SBR => 12,
        PrivRegisters::SLR => 13,
        PrivRegisters::CPUID => 14,
        PrivRegisters::PCBB => 16,
        PrivRegisters::SCBB => 17,
        PrivRegisters::IPL => 18,
        PrivRegisters::ASTLVL => 19,
        PrivRegisters::SIRR => 20,
        PrivRegisters::SISR => 21,
        PrivRegisters::ICCS => 24,
        PrivRegisters::NICR => 25,
        PrivRegisters::ICR => 26,
        PrivRegisters::TODR => 27,
        PrivRegisters::RXCS => 32,
        PrivRegisters::RXDB => 33,
        PrivRegisters::TXCS => 34,
        PrivRegisters::TXDB => 35,
        PrivRegisters::MAPEN => 56,
    }
}

impl PrivRegisters {
    /// The processor-register number of this register.
    pub fn register_number(self) -> (r: u8)
        ensures
            r == spec_register_number(self),
    {
        match self {
            PrivRegisters::KSP => 0,
            PrivRegisters::ESP => 1,
            PrivRegisters::SSP => 2,
            PrivRegisters::USP => 3,
            PrivRegisters::ISP => 4,
            PrivRegisters::ASN => 6,
            PrivRegisters::P0BR => 8,
            PrivRegisters::POLR => 9,
            PrivRegisters::P1BR => 10,
            PrivRegisters::P1LR => 11,
            PrivRegisters::SBR => 12,
            PrivRegisters::SLR => 13,
            PrivRegisters::CPUID => 14,
            PrivRegisters::PCBB => 16,
            PrivRegisters::SCBB => 17,
            PrivRegisters::IPL => 18,
            PrivRegisters::ASTLVL => 19,
            PrivRegisters::SIRR => 20,
            PrivRegisters::SISR => 21,
            PrivRegisters::ICCS => 24,
            PrivRegisters::NICR => 25,
            PrivRegisters::ICR => 26,
            PrivRegisters::TODR => 27,
            PrivRegisters::RXCS => 32,
            PrivRegisters::RXDB => 33,
            PrivRegisters::TXCS => 34,
            PrivRegisters::TXDB => 35,
            PrivRegisters::MAPEN => 56,
        }
    }

    /// The privileged register with processor-register number `n`, or
    /// `None` if no register carries that number.
    pub fn from_number(n: u8) -> (r: Option<PrivRegisters>)
        ensures
            r matches Some(reg) ==> spec_register_number(reg) == n,
            r is None ==> forall|reg: PrivRegisters| spec_register_number(reg) != n,
    {
        match n {
            0 => Some(PrivRegisters::KSP),
            1 => Some(PrivRegisters::ESP),
            2 => Some(PrivRegisters::SSP),
            3 => Some(PrivRegisters::USP),
            4 => Some(PrivRegisters::ISP),
            6 => Some(PrivRegisters::ASN),
            8 => Some(PrivRegisters::P0BR),
            9 => Some(PrivRegisters::POLR),
            10 => Some(PrivRegisters::P1BR),
            11 => Some(PrivRegisters::P1LR),
            12 => Some(PrivRegisters::SBR),
            13 => Some(PrivRegisters::SLR),
            14 => Some(PrivRegisters::CPUID),
            16 => Some(PrivRegisters::PCBB),
            17 => Some(PrivRegisters::SCBB),
            18 => Some(PrivRegisters::IPL),
            19 => Some(PrivRegisters::ASTLVL),
            20 => Some(PrivRegisters::SIRR),
            21 => Some(PrivRegisters::SISR),
            24 => Some(PrivRegisters::ICCS),
            25 => Some(PrivRegisters::NICR),
            26 => Some(PrivRegisters::ICR),
            27 => Some(PrivRegisters::TODR),
            32 => Some(PrivRegisters::RXCS),
            33 => Some(PrivRegisters::RXDB),
            34 => Some(PrivRegisters::TXCS),
            35 => Some(PrivRegisters::TXDB),
            56 => Some(PrivRegisters::MAPEN),
            _ => None,
        }
    }
}

} // verus!
