//! The opcode table: every architecturally defined instruction, its one- or
//! two-byte opcode, and the per-field access modes and operand widths.
//!
//! Opcodes are a single byte unless that byte is 0xFD, 0xFE or 0xFF, in which
//! case a second byte follows and the two form a 16-bit little-endian opcode.
//! For each instruction the table yields two parallel lists: the access mode
//! of every operand field and the width it declares. The two lists always
//! have the same length; `lemma_field_lists_equal_len` proves it.

use vstd::prelude::*;

use crate::instrs::FieldMode;
use crate::instrs::OperandWidth;
use crate::stream::ByteStream;
use crate::stream::le16;

verus! {

/// One identifier for every instruction the emulator recognizes, including
/// the D- and H-format floating instructions that are recognized but
/// reported as unsupported when dispatched.
#[derive(Copy, Clone, Debug, PartialEq, Eq, Structural)]
pub enum InstructionType {
    ADAWI,
    ADDB2,
    ADDB3,
    ADDW2,
    ADDW3,
    ADDL2,
    ADDL3,
    ADWC,
    ASHL,
    ASHQ,
    BICB2,
    BICB3,
    BICW2,
    BICW3,
    BICL2,
    BICL3,
    BISB2,
    BISB3,
    BISW2,
    BISW3,
    BISL2,
    BISL3,
    BITB,
    BITW,
    BITL,
    CLRB,
    CLRW,
    CLRL,
    CLRQ,
    CLRO,
    CMPB,
    CMPW,
    CMPL,
    CVTBW,
    CVTBL,
    CVTWB,
    CVTWL,
    CVTLB,
    CVTLW,
    DECB,
    DECW,
    DECL,
    DIVB2,
    DIVB3,
    DIVW2,
    DIVW3,
    DIVL2,
    DIVL3,
    EDIV,
    EMUL,
    INCB,
    INCW,
    INCL,
    MCOMB,
    MCOMW,
    MCOML,
    MNEGB,
    MNEGW,
    MNEGL,
    MOVB,
    MOVW,
    MOVL,
    MOVQ,
    MOVO,
    MOVZBW,
    MOVZBL,
    MOVZWL,
    MULB2,
    MULB3,
    MULW2,
    MULW3,
    MULL2,
    MULL3,
    PUSHL,
    ROTL,
    SBWC,
    SUBB2,
    SUBB3,
    SUBW2,
    SUBW3,
    SUBL2,
    SUBL3,
    TSTB,
    TSTW,
    TSTL,
    XORB2,
    XORB3,
    XORW2,
    XORW3,
    XORL2,
    XORL3,
    MOVAB,
    MOVAW,
    MOVAL,
    MOVAQ,
    MOVAO,
    PUSHAB,
    PUSHAW,
    PUSHAL,
    PUSHAQ,
    PUSHAO,
    CMPV,
    CMPZV,
    EXTV,
    EXTZV,
    FFC,
    FFS,
    INSV,
    ACBB,
    ACBW,
    ACBL,
    ACBF,
    ACBD,
    ACBG,
    ACBH,
    AOBLEQ,
    AOBLSS,
    BGTR,
    BLEQ,
    BNEQ,
    BEQL,
    BGEQ,
    BLSS,
    BGTRU,
    BLEQU,
    BVC,
    BVS,
    BCC,
    BCS,
    BBS,
    BBC,
    BBSS,
    BBCS,
    BBSC,
    BBCC,
    BBSSI,
    BBCCI,
    BLBS,
    BLBC,
    BRB,
    BRW,
    BSBB,
    BSBW,
    CASEB,
    CASEW,
    CASEL,
    JMP,
    JSB,
    RSB,
    SOBGEQ,
    SOBGTR,
    CALLG,
    CALLS,
    RET,
    BICPSW,
    BISPSW,
    BPT,
    BUGW,
    BUGL,
    HALT,
    INDEX,
    MOVPSL,
    NOP,
    POPR,
    PUSHR,
    XFC,
    INSQHI,
    INSQTI,
    INSQUE,
    REMQHI,
    REMQTI,
    REMQUE,
    ADDF2,
    ADDF3,
    ADDD2,
    ADDD3,
    ADDG2,
    ADDG3,
    ADDH2,
    ADDH3,
    CMPF,
    CMPD,
    CMPG,
    CMPH,
    CVTBF,
    CVTWF,
    CVTLF,
    CVTBD,
    CVTWD,
    CVTLD,
    CVTBG,
    CVTWG,
    CVTLG,
    CVTBH,
    CVTWH,
    CVTLH,
    CVTFB,
    CVTFW,
    CVTFL,
    CVTRFL,
    CVTDB,
    CVTDW,
    CVTDL,
    CVTRDL,
    CVTGB,
    CVTGW,
    CVTGL,
    CVTRGL,
    CVTHB,
    CVTHW,
    CVTHL,
    CVTRHL,
    CVTFD,
    CVTFG,
    CVTFH,
    CVTDF,
    CVTDH,
    CVTGF,
    CVTGH,
    CVTHF,
    CVTHD,
    CVTHG,
    DIVF2,
    DIVF3,
    DIVD2,
    DIVD3,
    DIVG2,
    DIVG3,
    DIVH2,
    DIVH3,
    EMODF,
    EMODD,
    EMODG,
    EMODH,
    MNEGF,
    MNEGD,
    MNEGG,
    MNEGH,
    MOVF,
    MOVD,
    MOVG,
    MOVH,
    MULF2,
    MULF3,
    MULD2,
    MULD3,
    MULG2,
    MULG3,
    MULH2,
    MULH3,
    POLYF,
    POLYD,
    POLYG,
    POLYH,
    SUBF2,
    SUBF3,
    SUBD2,
    SUBD3,
    SUBG2,
    SUBG3,
    SUBH2,
    SUBH3,
    TSTF,
    TSTD,
    TSTG,
    TSTH,
    REI,
    CHMK,
    CHME,
    CHMS,
    CHMU,
    LDPCTX,
    SVPCTX,
    MTPR,
    MFPR,
}

/// The opcode of each instruction: its defining one- or two-byte encoding,
/// with a two-byte opcode stored as the 16-bit little-endian combination.
pub open spec fn opcode_of(i: InstructionType) -> u16 {
    match i {
        InstructionType::ADAWI => 0x58,
        InstructionType::ADDB2 => 0x80,
        InstructionType::ADDB3 => 0x81,
        InstructionType::ADDW2 => 0xA0,
        InstructionType::ADDW3 => 0xA1,
        InstructionType::ADDL2 => 0xC0,
        InstructionType::ADDL3 => 0xC1,
        InstructionType::ADWC => 0xD8,
        InstructionType::ASHL => 0x78,
        InstructionType::ASHQ => 0x79,
        InstructionType::BICB2 => 0x8A,
        InstructionType::BICB3 => 0x8B,
        InstructionType::BICW2 => 0xAA,
        InstructionType::BICW3 => 0xAB,
        InstructionType::BICL2 => 0xCA,
        InstructionType::BICL3 => 0xCB,
        InstructionType::BISB2 => 0x88,
        InstructionType::BISB3 => 0x89,
        InstructionType::BISW2 => 0xA8,
        InstructionType::BISW3 => 0xA9,
        InstructionType::BISL2 => 0xC8,
        InstructionType::BISL3 => 0xC9,
        InstructionType::BITB => 0x93,
        InstructionType::BITW => 0xB3,
        InstructionType::BITL => 0xD3,
        InstructionType::CLRB => 0x94,
        InstructionType::CLRW => 0xB4,
        InstructionType::CLRL => 0xD4,
        InstructionType::CLRQ => 0x7C,
        InstructionType::CLRO => 0x7CFD,
        InstructionType::CMPB => 0x91,
        InstructionType::CMPW => 0xB1,
        InstructionType::CMPL => 0xD1,
        InstructionType::CVTBW => 0x99,
        InstructionType::CVTBL => 0x98,
        InstructionType::CVTWB => 0x33,
        InstructionType::CVTWL => 0x32,
        InstructionType::CVTLB => 0xF6,
        InstructionType::CVTLW => 0xF7,
        InstructionType::DECB => 0x97,
        InstructionType::DECW => 0xB7,
        InstructionType::DECL => 0xD7,
        InstructionType::DIVB2 => 0x86,
        InstructionType::DIVB3 => 0x87,
        InstructionType::DIVW2 => 0xA6,
        InstructionType::DIVW3 => 0xA7,
        InstructionType::DIVL2 => 0xC6,
        InstructionType::DIVL3 => 0xC7,
        InstructionType::EDIV => 0x7B,
        InstructionType::EMUL => 0x7A,
        InstructionType::INCB => 0x96,
        InstructionType::INCW => 0xB6,
        InstructionType::INCL => 0xD6,
        InstructionType::MCOMB => 0x92,
        InstructionType::MCOMW => 0xB2,
        InstructionType::MCOML => 0xD2,
        InstructionType::MNEGB => 0x8E,
        InstructionType::MNEGW => 0xAE,
        InstructionType::MNEGL => 0xCE,
        InstructionType::MOVB => 0x90,
        InstructionType::MOVW => 0xB0,
        InstructionType::MOVL => 0xD0,
        InstructionType::MOVQ => 0x7D,
        InstructionType::MOVO => 0x7DFD,
        InstructionType::MOVZBW => 0x9B,
        InstructionType::MOVZBL => 0x9A,
        InstructionType::MOVZWL => 0x3C,
        InstructionType::MULB2 => 0x84,
        InstructionType::MULB3 => 0x85,
        InstructionType::MULW2 => 0xA4,
        InstructionType::MULW3 => 0xA5,
        InstructionType::MULL2 => 0xC4,
        InstructionType::MULL3 => 0xC5,
        InstructionType::PUSHL => 0xDD,
        InstructionType::ROTL => 0x9C,
        InstructionType::SBWC => 0xD9,
        InstructionType::SUBB2 => 0x82,
        InstructionType::SUBB3 => 0x83,
        InstructionType::SUBW2 => 0xA2,
        InstructionType::SUBW3 => 0xA3,
        InstructionType::SUBL2 => 0xC2,
        InstructionType::SUBL3 => 0xC3,
        InstructionType::TSTB => 0x95,
        InstructionType::TSTW => 0xB5,
        InstructionType::TSTL => 0xD5,
        InstructionType::XORB2 => 0x8C,
        InstructionType::XORB3 => 0x8D,
        InstructionType::XORW2 => 0xAC,
        InstructionType::XORW3 => 0xAD,
        InstructionType::XORL2 => 0xCC,
        InstructionType::XORL3 => 0xCD,
        InstructionType::MOVAB => 0x9E,
        InstructionType::MOVAW => 0x3E,
        InstructionType::MOVAL => 0xDE,
        InstructionType::MOVAQ => 0x7E,
        InstructionType::MOVAO => 0x7EFD,
        InstructionType::PUSHAB => 0x9F,
        InstructionType::PUSHAW => 0x3F,
        InstructionType::PUSHAL => 0xDF,
        InstructionType::PUSHAQ => 0x7F,
        InstructionType::PUSHAO => 0x7FFD,
        InstructionType::CMPV => 0xEC,
        InstructionType::CMPZV => 0xED,
        InstructionType::EXTV => 0xEE,
        InstructionType::EXTZV => 0xEF,
        InstructionType::FFC => 0xEB,
        InstructionType::FFS => 0xEA,
        InstructionType::INSV => 0xF0,
        InstructionType::ACBB => 0x9D,
        InstructionType::ACBW => 0x3D,
        InstructionType::ACBL => 0xF1,
        InstructionType::ACBF => 0x4F,
        InstructionType::ACBD => 0x6F,
        InstructionType::ACBG => 0x4FFD,
        InstructionType::ACBH => 0x6FFD,
        InstructionType::AOBLEQ => 0xF3,
        InstructionType::AOBLSS => 0xF2,
        InstructionType::BGTR => 0x14,
        InstructionType::BLEQ => 0x15,
        InstructionType::BNEQ => 0x12,
        InstructionType::BEQL => 0x13,
        InstructionType::BGEQ => 0x18,
        InstructionType::BLSS => 0x19,
        InstructionType::BGTRU => 0x1A,
        InstructionType::BLEQU => 0x1B,
        InstructionType::BVC => 0x1C,
        InstructionType::BVS => 0x1D,
        InstructionType::BCC => 0x1E,
        InstructionType::BCS => 0x1F,
        InstructionType::BBS => 0xE0,
        InstructionType::BBC => 0xE1,
        InstructionType::BBSS => 0xE2,
        InstructionType::BBCS => 0xE3,
        InstructionType::BBSC => 0xE4,
        InstructionType::BBCC => 0xE5,
        InstructionType::BBSSI => 0xE6,
        InstructionType::BBCCI => 0xE7,
        InstructionType::BLBS => 0xE8,
        InstructionType::BLBC => 0xE9,
        InstructionType::BRB => 0x11,
        InstructionType::BRW => 0x31,
        InstructionType::BSBB => 0x10,
        InstructionType::BSBW => 0x30,
        InstructionType::CASEB => 0x8F,
        InstructionType::CASEW => 0xAF,
        InstructionType::CASEL => 0xCF,
        InstructionType::JMP => 0x17,
        InstructionType::JSB => 0x16,
        InstructionType::RSB => 0x5,
        InstructionType::SOBGEQ => 0xF4,
        InstructionType::SOBGTR => 0xF5,
        InstructionType::CALLG => 0xFA,
        InstructionType::CALLS => 0xFB,
        InstructionType::RET => 0x4,
        InstructionType::BICPSW => 0xB9,
        InstructionType::BISPSW => 0xB8,
        InstructionType::BPT => 0x3,
        InstructionType::BUGW => 0xFEFF,
        InstructionType::BUGL => 0xFDFF,
        InstructionType::HALT => 0x0,
        InstructionType::INDEX => 0xA,
        InstructionType::MOVPSL => 0xDC,
        InstructionType::NOP => 0x1,
        InstructionType::POPR => 0xBA,
        InstructionType::PUSHR => 0xBB,
        InstructionType::XFC => 0xFC,
        InstructionType::INSQHI => 0x5C,
        InstructionType::INSQTI => 0x5D,
        InstructionType::INSQUE => 0xE,
        InstructionType::REMQHI => 0x5E,
        InstructionType::REMQTI => 0x5F,
        InstructionType::REMQUE => 0xF,
        InstructionType::ADDF2 => 0x40,
        InstructionType::ADDF3 => 0x41,
        InstructionType::ADDD2 => 0x60,
        InstructionType::ADDD3 => 0x61,
        InstructionType::ADDG2 => 0x40FD,
        InstructionType::ADDG3 => 0x41FD,
        InstructionType::ADDH2 => 0x60FD,
        InstructionType::ADDH3 => 0x61FD,
        InstructionType::CMPF => 0x51,
        InstructionType::CMPD => 0x71,
        InstructionType::CMPG => 0x51FD,
        InstructionType::CMPH => 0x71FD,
        InstructionType::CVTBF => 0x4C,
        InstructionType::CVTWF => 0x4D,
        InstructionType::CVTLF => 0x4E,
        InstructionType::CVTBD => 0x6C,
        InstructionType::CVTWD => 0x6D,
        InstructionType::CVTLD => 0x6E,
        InstructionType::CVTBG => 0x4CFD,
        InstructionType::CVTWG => 0x4DFD,
        InstructionType::CVTLG => 0x4EFD,
        InstructionType::CVTBH => 0x6CFD,
        InstructionType::CVTWH => 0x6DFD,
        InstructionType::CVTLH => 0x6EFD,
        InstructionType::CVTFB => 0x48,
        InstructionType::CVTFW => 0x49,
        InstructionType::CVTFL => 0x4A,
        InstructionType::CVTRFL => 0x4B,
        InstructionType::CVTDB => 0x68,
        InstructionType::CVTDW => 0x69,
        InstructionType::CVTDL => 0x6A,
        InstructionType::CVTRDL => 0x6B,
        InstructionType::CVTGB => 0x48FD,
        InstructionType::CVTGW => 0x49FD,
        InstructionType::CVTGL => 0x4AFD,
        InstructionType::CVTRGL => 0x4BFD,
        InstructionType::CVTHB => 0x68FD,
        InstructionType::CVTHW => 0x69FD,
        InstructionType::CVTHL => 0x6AFD,
        InstructionType::CVTRHL => 0x6BFD,
        InstructionType::CVTFD => 0x56,
        InstructionType::CVTFG => 0x99FD,
        InstructionType::CVTFH => 0x98FD,
        InstructionType::CVTDF => 0x76,
        InstructionType::CVTDH => 0x32FD,
        InstructionType::CVTGF => 0x33FD,
        InstructionType::CVTGH => 0x56FD,
        InstructionType::CVTHF => 0xF6FD,
        InstructionType::CVTHD => 0xF7FD,
        InstructionType::CVTHG => 0x76FD,
        InstructionType::DIVF2 => 0x46,
        InstructionType::DIVF3 => 0x47,
        InstructionType::DIVD2 => 0x66,
        InstructionType::DIVD3 => 0x67,
        InstructionType::DIVG2 => 0x46FD,
        InstructionType::DIVG3 => 0x47FD,
        InstructionType::DIVH2 => 0x66FD,
        InstructionType::DIVH3 => 0x67FD,
        InstructionType::EMODF => 0x54,
        InstructionType::EMODD => 0x74,
        InstructionType::EMODG => 0x54FD,
        InstructionType::EMODH => 0x74FD,
        InstructionType::MNEGF => 0x52,
        InstructionType::MNEGD => 0x72,
        InstructionType::MNEGG => 0x52FD,
        InstructionType::MNEGH => 0x72FD,
        InstructionType::MOVF => 0x50,
        InstructionType::MOVD => 0x70,
        InstructionType::MOVG => 0x50FD,
        InstructionType::MOVH => 0x70FD,
        InstructionType::MULF2 => 0x44,
        InstructionType::MULF3 => 0x45,
        InstructionType::MULD2 => 0x64,
        InstructionType::MULD3 => 0x65,
        InstructionType::MULG2 => 0x44FD,
        InstructionType::MULG3 => 0x45FD,
        InstructionType::MULH2 => 0x64FD,
        InstructionType::MULH3 => 0x65FD,
        InstructionType::POLYF => 0x55,
        InstructionType::POLYD => 0x75,
        InstructionType::POLYG => 0x55FD,
        InstructionType::POLYH => 0x75FD,
        InstructionType::SUBF2 => 0x42,
        InstructionType::SUBF3 => 0x43,
        InstructionType::SUBD2 => 0x62,
        InstructionType::SUBD3 => 0x63,
        InstructionType::SUBG2 => 0x42FD,
        InstructionType::SUBG3 => 0x43FD,
        InstructionType::SUBH2 => 0x62FD,
        InstructionType::SUBH3 => 0x63FD,
        InstructionType::TSTF => 0x53,
        InstructionType::TSTD => 0x73,
        InstructionType::TSTG => 0x53FD,
        InstructionType::TSTH => 0x73FD,
        InstructionType::REI => 0x2,
        InstructionType::CHMK => 0xBC,
        InstructionType::CHME => 0xBD,
        InstructionType::CHMS => 0xBE,
        InstructionType::CHMU => 0xBF,
        InstructionType::LDPCTX => 0x6,
        InstructionType::SVPCTX => 0x7,
        InstructionType::MTPR => 0xDA,
        InstructionType::MFPR => 0xDB,
    }
}

/// The instruction defined with opcode `op`, or `None` if no instruction
/// carries it. This is the inverse reading of the opcode table.
pub open spec fn spec_from_opcode(op: u16) -> Option<InstructionType> {

    if op == 0x58 {
        Some(InstructionType::ADAWI)
    } else if op == 0x80 {
        Some(InstructionType::ADDB2)
    } else if op == 0x81 {
        Some(InstructionType::ADDB3)
    } else if op == 0xA0 {
        Some(InstructionType::ADDW2)
    } else if op == 0xA1 {
        Some(InstructionType::ADDW3)
    } else if op == 0xC0 {
        Some(InstructionType::ADDL2)
    } else if op == 0xC1 {
        Some(InstructionType::ADDL3)
    } else if op == 0xD8 {
        Some(InstructionType::ADWC)
    } else if op == 0x78 {
        Some(InstructionType::ASHL)
    } else if op == 0x79 {
        Some(InstructionType::ASHQ)
    } else if op == 0x8A {
        Some(InstructionType::BICB2)
    } else if op == 0x8B {
        Some(InstructionType::BICB3)
    } else if op == 0xAA {
        Some(InstructionType::BICW2)
    } else if op == 0xAB {
        Some(InstructionType::BICW3)
    } else if op == 0xCA {
        Some(InstructionType::BICL2)
    } else if op == 0xCB {
        Some(InstructionType::BICL3)
    } else if op == 0x88 {
        Some(InstructionType::BISB2)
    } else if op == 0x89 {
        Some(InstructionType::BISB3)
    } else if op == 0xA8 {
        Some(InstructionType::BISW2)
    } else if op == 0xA9 {
        Some(InstructionType::BISW3)
    } else if op == 0xC8 {
        Some(InstructionType::BISL2)
    } else if op == 0xC9 {
        Some(InstructionType::BISL3)
    } else if op == 0x93 {
        Some(InstructionType::BITB)
    } else if op == 0xB3 {
        Some(InstructionType::BITW)
    } else if op == 0xD3 {
        Some(InstructionType::BITL)
    } else if op == 0x94 {
        Some(InstructionType::CLRB)
    } else if op == 0xB4 {
        Some(InstructionType::CLRW)
    } else if op == 0xD4 {
        Some(InstructionType::CLRL)
    } else if op == 0x7C {
        Some(InstructionType::CLRQ)
    } else if op == 0x7CFD {
        Some(InstructionType::CLRO)
    } else if op == 0x91 {
        Some(InstructionType::CMPB)
    } else if op == 0xB1 {
        Some(InstructionType::CMPW)
    } else if op == 0xD1 {
        Some(InstructionType::CMPL)
    } else if op == 0x99 {
        Some(InstructionType::CVTBW)
    } else if op == 0x98 {
        Some(InstructionType::CVTBL)
    } else if op == 0x33 {
        Some(InstructionType::CVTWB)
    } else if op == 0x32 {
        Some(InstructionType::CVTWL)
    } else if op == 0xF6 {
        Some(InstructionType::CVTLB)
    } else if op == 0xF7 {
        Some(InstructionType::CVTLW)
    } else if op == 0x97 {
        Some(InstructionType::DECB)
    } else if op == 0xB7 {
        Some(InstructionType::DECW)
    } else if op == 0xD7 {
        Some(InstructionType::DECL)
    } else if op == 0x86 {
        Some(InstructionType::DIVB2)
    } else if op == 0x87 {
        Some(InstructionType::DIVB3)
    } else if op == 0xA6 {
        Some(InstructionType::DIVW2)
    } else if op == 0xA7 {
        Some(InstructionType::DIVW3)
    } else if op == 0xC6 {
        Some(InstructionType::DIVL2)
    } else if op == 0xC7 {
        Some(InstructionType::DIVL3)
    } else if op == 0x7B {
        Some(InstructionType::EDIV)
    } else if op == 0x7A {
        Some(InstructionType::EMUL)
    } else if op == 0x96 {
        Some(InstructionType::INCB)
    } else if op == 0xB6 {
        Some(InstructionType::INCW)
    } else if op == 0xD6 {
        Some(InstructionType::INCL)
    } else if op == 0x92 {
        Some(InstructionType::MCOMB)
    } else if op == 0xB2 {
        Some(InstructionType::MCOMW)
    } else if op == 0xD2 {
        Some(InstructionType::MCOML)
    } else if op == 0x8E {
        Some(InstructionType::MNEGB)
    } else if op == 0xAE {
        Some(InstructionType::MNEGW)
    } else if op == 0xCE {
        Some(InstructionType::MNEGL)
    } else if op == 0x90 {
        Some(InstructionType::MOVB)
    } else if op == 0xB0 {
        Some(InstructionType::MOVW)
    } else if op == 0xD0 {
        Some(InstructionType::MOVL)
    } else if op == 0x7D {
        Some(InstructionType::MOVQ)
    } else if op == 0x7DFD {
        Some(InstructionType::MOVO)
    } else if op == 0x9B {
        Some(InstructionType::MOVZBW)
    } else if op == 0x9A {
        Some(InstructionType::MOVZBL)
    } else if op == 0x3C {
        Some(InstructionType::MOVZWL)
    } else if op == 0x84 {
        Some(InstructionType::MULB2)
    } else if op == 0x85 {
        Some(InstructionType::MULB3)
    } else if op == 0xA4 {
        Some(InstructionType::MULW2)
    } else if op == 0xA5 {
        Some(InstructionType::MULW3)
    } else if op == 0xC4 {
        Some(InstructionType::MULL2)
    } else if op == 0xC5 {
        Some(InstructionType::MULL3)
    } else if op == 0xDD {
        Some(InstructionType::PUSHL)
    } else if op == 0x9C {
        Some(InstructionType::ROTL)
    } else if op == 0xD9 {
        Some(InstructionType::SBWC)
    } else if op == 0x82 {
        Some(InstructionType::SUBB2)
    } else if op == 0x83 {
        Some(InstructionType::SUBB3)
    } else if op == 0xA2 {
        Some(InstructionType::SUBW2)
    } else if op == 0xA3 {
        Some(InstructionType::SUBW3)
    } else if op == 0xC2 {
        Some(InstructionType::SUBL2)
    } else if op == 0xC3 {
        Some(InstructionType::SUBL3)
    } else if op == 0x95 {
        Some(InstructionType::TSTB)
    } else if op == 0xB5 {
        Some(InstructionType::TSTW)
    } else if op == 0xD5 {
        Some(InstructionType::TSTL)
    } else if op == 0x8C {
        Some(InstructionType::XORB2)
    } else if op == 0x8D {
        Some(InstructionType::XORB3)
    } else if op == 0xAC {
        Some(InstructionType::XORW2)
    } else if op == 0xAD {
        Some(InstructionType::XORW3)
    } else if op == 0xCC {
        Some(InstructionType::XORL2)
    } else if op == 0xCD {
        Some(InstructionType::XORL3)
    } else if op == 0x9E {
        Some(InstructionType::MOVAB)
    } else if op == 0x3E {
        Some(InstructionType::MOVAW)
    } else if op == 0xDE {
        Some(InstructionType::MOVAL)
    } else if op == 0x7E {
        Some(InstructionType::MOVAQ)
    } else if op == 0x7EFD {
        Some(InstructionType::MOVAO)
    } else if op == 0x9F {
        Some(InstructionType::PUSHAB)
    } else if op == 0x3F {
        Some(InstructionType::PUSHAW)
    } else if op == 0xDF {
        Some(InstructionType::PUSHAL)
    } else if op == 0x7F {
        Some(InstructionType::PUSHAQ)
    } else if op == 0x7FFD {
        Some(InstructionType::PUSHAO)
    } else if op == 0xEC {
        Some(InstructionType::CMPV)
    } else if op == 0xED {
        Some(InstructionType::CMPZV)
    } else if op == 0xEE {
        Some(InstructionType::EXTV)
    } else if op == 0xEF {
        Some(InstructionType::EXTZV)
    } else if op == 0xEB {
        Some(InstructionType::FFC)
    } else if op == 0xEA {
        Some(InstructionType::FFS)
    } else if op == 0xF0 {
        Some(InstructionType::INSV)
    } else if op == 0x9D {
        Some(InstructionType::ACBB)
    } else if op == 0x3D {
        Some(InstructionType::ACBW)
    } else if op == 0xF1 {
        Some(InstructionType::ACBL)
    } else if op == 0x4F {
        Some(InstructionType::ACBF)
    } else if op == 0x6F {
        Some(InstructionType::ACBD)
    } else if op == 0x4FFD {
        Some(InstructionType::ACBG)
    } else if op == 0x6FFD {
        Some(InstructionType::ACBH)
    } else if op == 0xF3 {
        Some(InstructionType::AOBLEQ)
    } else if op == 0xF2 {
        Some(InstructionType::AOBLSS)
    } else if op == 0x14 {
        Some(InstructionType::BGTR)
    } else if op == 0x15 {
        Some(InstructionType::BLEQ)
    } else if op == 0x12 {
        Some(InstructionType::BNEQ)
    } else if op == 0x13 {
        Some(InstructionType::BEQL)
    } else if op == 0x18 {
        Some(InstructionType::BGEQ)
    } else if op == 0x19 {
        Some(InstructionType::BLSS)
    } else if op == 0x1A {
        Some(InstructionType::BGTRU)
    } else if op == 0x1B {
        Some(InstructionType::BLEQU)
    } else if op == 0x1C {
        Some(InstructionType::BVC)
    } else if op == 0x1D {
        Some(InstructionType::BVS)
    } else if op == 0x1E {
        Some(InstructionType::BCC)
    } else if op == 0x1F {
        Some(InstructionType::BCS)
    } else if op == 0xE0 {
        Some(InstructionType::BBS)
    } else if op == 0xE1 {
        Some(InstructionType::BBC)
    } else if op == 0xE2 {
        Some(InstructionType::BBSS)
    } else if op == 0xE3 {
        Some(InstructionType::BBCS)
    } else if op == 0xE4 {
        Some(InstructionType::BBSC)
    } else if op == 0xE5 {
        Some(InstructionType::BBCC)
    } else if op == 0xE6 {
        Some(InstructionType::BBSSI)
    } else if op == 0xE7 {
        Some(InstructionType::BBCCI)
    } else if op == 0xE8 {
        Some(InstructionType::BLBS)
    } else if op == 0xE9 {
        Some(InstructionType::BLBC)
    } else if op == 0x11 {
        Some(InstructionType::BRB)
    } else if op == 0x31 {
        Some(InstructionType::BRW)
    } else if op == 0x10 {
        Some(InstructionType::BSBB)
    } else if op == 0x30 {
        Some(InstructionType::BSBW)
    } else if op == 0x8F {
        Some(InstructionType::CASEB)
    } else if op == 0xAF {
        Some(InstructionType::CASEW)
    } else if op == 0xCF {
        Some(InstructionType::CASEL)
    } else if op == 0x17 {
        Some(InstructionType::JMP)
    } else if op == 0x16 {
        Some(InstructionType::JSB)
    } else if op == 0x5 {
        Some(InstructionType::RSB)
    } else if op == 0xF4 {
        Some(InstructionType::SOBGEQ)
    } else if op == 0xF5 {
        Some(InstructionType::SOBGTR)
    } else if op == 0xFA {
        Some(InstructionType::CALLG)
    } else if op == 0xFB {
        Some(InstructionType::CALLS)
    } else if op == 0x4 {
        Some(InstructionType::RET)
    } else if op == 0xB9 {
        Some(InstructionType::BICPSW)
    } else if op == 0xB8 {
        Some(InstructionType::BISPSW)
    } else if op == 0x3 {
        Some(InstructionType::BPT)
    } else if op == 0xFEFF {
        Some(InstructionType::BUGW)
    } else if op == 0xFDFF {
        Some(InstructionType::BUGL)
    } else if op == 0x0 {
        Some(InstructionType::HALT)
    } else if op == 0xA {
        Some(InstructionType::INDEX)
    } else if op == 0xDC {
        Some(InstructionType::MOVPSL)
    } else if op == 0x1 {
        Some(InstructionType::NOP)
    } else if op == 0xBA {
        Some(InstructionType::POPR)
    } else if op == 0xBB {
        Some(InstructionType::PUSHR)
    } else if op == 0xFC {
        Some(InstructionType::XFC)
    } else if op == 0x5C {
        Some(InstructionType::INSQHI)
    } else if op == 0x5D {
        Some(InstructionType::INSQTI)
    } else if op == 0xE {
        Some(InstructionType::INSQUE)
    } else if op == 0x5E {
        Some(InstructionType::REMQHI)
    } else if op == 0x5F {
        Some(InstructionType::REMQTI)
    } else if op == 0xF {
        Some(InstructionType::REMQUE)
    } else if op == 0x40 {
        Some(InstructionType::ADDF2)
    } else if op == 0x41 {
        Some(InstructionType::ADDF3)
    } else if op == 0x60 {
        Some(InstructionType::ADDD2)
    } else if op == 0x61 {
        Some(InstructionType::ADDD3)
    } else if op == 0x40FD {
        Some(InstructionType::ADDG2)
    } else if op == 0x41FD {
        Some(InstructionType::ADDG3)
    } else if op == 0x60FD {
        Some(InstructionType::ADDH2)
    } else if op == 0x61FD {
        Some(InstructionType::ADDH3)
    } else if op == 0x51 {
        Some(InstructionType::CMPF)
    } else if op == 0x71 {
        Some(InstructionType::CMPD)
    } else if op == 0x51FD {
        Some(InstructionType::CMPG)
    } else if op == 0x71FD {
        Some(InstructionType::CMPH)
    } else if op == 0x4C {
        Some(InstructionType::CVTBF)
    } else if op == 0x4D {
        Some(InstructionType::CVTWF)
    } else if op == 0x4E {
        Some(InstructionType::CVTLF)
    } else if op == 0x6C {
        Some(InstructionType::CVTBD)
    } else if op == 0x6D {
        Some(InstructionType::CVTWD)
    } else if op == 0x6E {
        Some(InstructionType::CVTLD)
    } else if op == 0x4CFD {
        Some(InstructionType::CVTBG)
    } else if op == 0x4DFD {
        Some(InstructionType::CVTWG)
    } else if op == 0x4EFD {
        Some(InstructionType::CVTLG)
    } else if op == 0x6CFD {
        Some(InstructionType::CVTBH)
    } else if op == 0x6DFD {
        Some(InstructionType::CVTWH)
    } else if op == 0x6EFD {
        Some(InstructionType::CVTLH)
    } else if op == 0x48 {
        Some(InstructionType::CVTFB)
    } else if op == 0x49 {
        Some(InstructionType::CVTFW)
    } else if op == 0x4A {
        Some(InstructionType::CVTFL)
    } else if op == 0x4B {
        Some(InstructionType::CVTRFL)
    } else if op == 0x68 {
        Some(InstructionType::CVTDB)
    } else if op == 0x69 {
        Some(InstructionType::CVTDW)
    } else if op == 0x6A {
        Some(InstructionType::CVTDL)
    } else if op == 0x6B {
        Some(InstructionType::CVTRDL)
    } else if op == 0x48FD {
        Some(InstructionType::CVTGB)
    } else if op == 0x49FD {
        Some(InstructionType::CVTGW)
    } else if op == 0x4AFD {
        Some(InstructionType::CVTGL)
    } else if op == 0x4BFD {
        Some(InstructionType::CVTRGL)
    } else if op == 0x68FD {
        Some(InstructionType::CVTHB)
    } else if op == 0x69FD {
        Some(InstructionType::CVTHW)
    } else if op == 0x6AFD {
        Some(InstructionType::CVTHL)
    } else if op == 0x6BFD {
        Some(InstructionType::CVTRHL)
    } else if op == 0x56 {
        Some(InstructionType::CVTFD)
    } else if op == 0x99FD {
        Some(InstructionType::CVTFG)
    } else if op == 0x98FD {
        Some(InstructionType::CVTFH)
    } else if op == 0x76 {
        Some(InstructionType::CVTDF)
    } else if op == 0x32FD {
        Some(InstructionType::CVTDH)
    } else if op == 0x33FD {
        Some(InstructionType::CVTGF)
    } else if op == 0x56FD {
        Some(InstructionType::CVTGH)
    } else if op == 0xF6FD {
        Some(InstructionType::CVTHF)
    } else if op == 0xF7FD {
        Some(InstructionType::CVTHD)
    } else if op == 0x76FD {
        Some(InstructionType::CVTHG)
    } else if op == 0x46 {
        Some(InstructionType::DIVF2)
    } else if op == 0x47 {
        Some(InstructionType::DIVF3)
    } else if op == 0x66 {
        Some(InstructionType::DIVD2)
    } else if op == 0x67 {
        Some(InstructionType::DIVD3)
    } else if op == 0x46FD {
        Some(InstructionType::DIVG2)
    } else if op == 0x47FD {
        Some(InstructionType::DIVG3)
    } else if op == 0x66FD {
        Some(InstructionType::DIVH2)
    } else if op == 0x67FD {
        Some(InstructionType::DIVH3)
    } else if op == 0x54 {
        Some(InstructionType::EMODF)
    } else if op == 0x74 {
        Some(InstructionType::EMODD)
    } else if op == 0x54FD {
        Some(InstructionType::EMODG)
    } else if op == 0x74FD {
        Some(InstructionType::EMODH)
    } else if op == 0x52 {
        Some(InstructionType::MNEGF)
    } else if op == 0x72 {
        Some(InstructionType::MNEGD)
    } else if op == 0x52FD {
        Some(InstructionType::MNEGG)
    } else if op == 0x72FD {
        Some(InstructionType::MNEGH)
    } else if op == 0x50 {
        Some(InstructionType::MOVF)
    } else if op == 0x70 {
        Some(InstructionType::MOVD)
    } else if op == 0x50FD {
        Some(InstructionType::MOVG)
    } else if op == 0x70FD {
        Some(InstructionType::MOVH)
    } else if op == 0x44 {
        Some(InstructionType::MULF2)
    } else if op == 0x45 {
        Some(InstructionType::MULF3)
    } else if op == 0x64 {
        Some(InstructionType::MULD2)
    } else if op == 0x65 {
        Some(InstructionType::MULD3)
    } else if op == 0x44FD {
        Some(InstructionType::MULG2)
    } else if op == 0x45FD {
        Some(InstructionType::MULG3)
    } else if op == 0x64FD {
        Some(InstructionType::MULH2)
    } else if op == 0x65FD {
        Some(InstructionType::MULH3)
    } else if op == 0x55 {
        Some(InstructionType::POLYF)
    } else if op == 0x75 {
        Some(InstructionType::POLYD)
    } else if op == 0x55FD {
        Some(InstructionType::POLYG)
    } else if op == 0x75FD {
        Some(InstructionType::POLYH)
    } else if op == 0x42 {
        Some(InstructionType::SUBF2)
    } else if op == 0x43 {
        Some(InstructionType::SUBF3)
    } else if op == 0x62 {
        Some(InstructionType::SUBD2)
    } else if op == 0x63 {
        Some(InstructionType::SUBD3)
    } else if op == 0x42FD {
        Some(InstructionType::SUBG2)
    } else if op == 0x43FD {
        Some(InstructionType::SUBG3)
    } else if op == 0x62FD {
        Some(InstructionType::SUBH2)
    } else if op == 0x63FD {
        Some(InstructionType::SUBH3)
    } else if op == 0x53 {
        Some(InstructionType::TSTF)
    } else if op == 0x73 {
        Some(InstructionType::TSTD)
    } else if op == 0x53FD {
        Some(InstructionType::TSTG)
    } else if op == 0x73FD {
        Some(InstructionType::TSTH)
    } else if op == 0x2 {
        Some(InstructionType::REI)
    } else if op == 0xBC {
        Some(InstructionType::CHMK)
    } else if op == 0xBD {
        Some(InstructionType::CHME)
    } else if op == 0xBE {
        Some(InstructionType::CHMS)
    } else if op == 0xBF {
        Some(InstructionType::CHMU)
    } else if op == 0x6 {
        Some(InstructionType::LDPCTX)
    } else if op == 0x7 {
        Some(InstructionType::SVPCTX)
    } else if op == 0xDA {
        Some(InstructionType::MTPR)
    } else if op == 0xDB {
        Some(InstructionType::MFPR)
    } else {
        None
    }
}

impl InstructionType {
    /// Look an opcode up in the table: the instruction defined with this
    /// opcode, or `None` if no instruction carries it.
    pub fn from_opcode(op: u16) -> (r: Option<InstructionType>)
        ensures
            r == spec_from_opcode(op),
    {
        match op {
            0x58 => Some(InstructionType::ADAWI),
            0x80 => Some(InstructionType::ADDB2),
            0x81 => Some(InstructionType::ADDB3),
            0xA0 => Some(InstructionType::ADDW2),
            0xA1 => Some(InstructionType::ADDW3),
            0xC0 => Some(InstructionType::ADDL2),
            0xC1 => Some(InstructionType::ADDL3),
            0xD8 => Some(InstructionType::ADWC),
            0x78 => Some(InstructionType::ASHL),
            0x79 => Some(InstructionType::ASHQ),
            0x8A => Some(InstructionType::BICB2),
            0x8B => Some(InstructionType::BICB3),
            0xAA => Some(InstructionType::BICW2),
            0xAB => Some(InstructionType::BICW3),
            0xCA => Some(InstructionType::BICL2),
            0xCB => Some(InstructionType::BICL3),
            0x88 => Some(InstructionType::BISB2),
            0x89 => Some(InstructionType::BISB3),
            0xA8 => Some(InstructionType::BISW2),
            0xA9 => Some(InstructionType::BISW3),
            0xC8 => Some(InstructionType::BISL2),
            0xC9 => Some(InstructionType::BISL3),
            0x93 => Some(InstructionType::BITB),
            0xB3 => Some(InstructionType::BITW),
            0xD3 => Some(InstructionType::BITL),
            0x94 => Some(InstructionType::CLRB),
            0xB4 => Some(InstructionType::CLRW),
            0xD4 => Some(InstructionType::CLRL),
            0x7C => Some(InstructionType::CLRQ),
            0x7CFD => Some(InstructionType::CLRO),
            0x91 => Some(InstructionType::CMPB),
            0xB1 => Some(InstructionType::CMPW),
            0xD1 => Some(InstructionType::CMPL),
            0x99 => Some(InstructionType::CVTBW),
            0x98 => Some(InstructionType::CVTBL),
            0x33 => Some(InstructionType::CVTWB),
            0x32 => Some(InstructionType::CVTWL),
            0xF6 => Some(InstructionType::CVTLB),
            0xF7 => Some(InstructionType::CVTLW),
            0x97 => Some(InstructionType::DECB),
            0xB7 => Some(InstructionType::DECW),
            0xD7 => Some(InstructionType::DECL),
            0x86 => Some(InstructionType::DIVB2),
            0x87 => Some(InstructionType::DIVB3),
            0xA6 => Some(InstructionType::DIVW2),
            0xA7 => Some(InstructionType::DIVW3),
            0xC6 => Some(InstructionType::DIVL2),
            0xC7 => Some(InstructionType::DIVL3),
            0x7B => Some(InstructionType::EDIV),
            0x7A => Some(InstructionType::EMUL),
            0x96 => Some(InstructionType::INCB),
            0xB6 => Some(InstructionType::INCW),
            0xD6 => Some(InstructionType::INCL),
            0x92 => Some(InstructionType::MCOMB),
            0xB2 => Some(InstructionType::MCOMW),
            0xD2 => Some(InstructionType::MCOML),
            0x8E => Some(InstructionType::MNEGB),
            0xAE => Some(InstructionType::MNEGW),
            0xCE => Some(InstructionType::MNEGL),
            0x90 => Some(InstructionType::MOVB),
            0xB0 => Some(InstructionType::MOVW),
            0xD0 => Some(InstructionType::MOVL),
            0x7D => Some(InstructionType::MOVQ),
            0x7DFD => Some(InstructionType::MOVO),
            0x9B => Some(InstructionType::MOVZBW),
            0x9A => Some(InstructionType::MOVZBL),
            0x3C => Some(InstructionType::MOVZWL),
            0x84 => Some(InstructionType::MULB2),
            0x85 => Some(InstructionType::MULB3),
            0xA4 => Some(InstructionType::MULW2),
            0xA5 => Some(InstructionType::MULW3),
            0xC4 => Some(InstructionType::MULL2),
            0xC5 => Some(InstructionType::MULL3),
            0xDD => Some(InstructionType::PUSHL),
            0x9C => Some(InstructionType::ROTL),
            0xD9 => Some(InstructionType::SBWC),
            0x82 => Some(InstructionType::SUBB2),
            0x83 => Some(InstructionType::SUBB3),
            0xA2 => Some(InstructionType::SUBW2),
            0xA3 => Some(InstructionType::SUBW3),
            0xC2 => Some(InstructionType::SUBL2),
            0xC3 => Some(InstructionType::SUBL3),
            0x95 => Some(InstructionType::TSTB),
            0xB5 => Some(InstructionType::TSTW),
            0xD5 => Some(InstructionType::TSTL),
            0x8C => Some(InstructionType::XORB2),
            0x8D => Some(InstructionType::XORB3),
            0xAC => Some(InstructionType::XORW2),
            0xAD => Some(InstructionType::XORW3),
            0xCC => Some(InstructionType::XORL2),
            0xCD => Some(InstructionType::XORL3),
            0x9E => Some(InstructionType::MOVAB),
            0x3E => Some(InstructionType::MOVAW),
            0xDE => Some(InstructionType::MOVAL),
            0x7E => Some(InstructionType::MOVAQ),
            0x7EFD => Some(InstructionType::MOVAO),
            0x9F => Some(InstructionType::PUSHAB),
            0x3F => Some(InstructionType::PUSHAW),
            0xDF => Some(InstructionType::PUSHAL),
            0x7F => Some(InstructionType::PUSHAQ),
            0x7FFD => Some(InstructionType::PUSHAO),
            0xEC => Some(InstructionType::CMPV),
            0xED => Some(InstructionType::CMPZV),
            0xEE => Some(InstructionType::EXTV),
            0xEF => Some(InstructionType::EXTZV),
            0xEB => Some(InstructionType::FFC),
            0xEA => Some(InstructionType::FFS),
            0xF0 => Some(InstructionType::INSV),
            0x9D => Some(InstructionType::ACBB),
            0x3D => Some(InstructionType::ACBW),
            0xF1 => Some(InstructionType::ACBL),
            0x4F => Some(InstructionType::ACBF),
            0x6F => Some(InstructionType::ACBD),
            0x4FFD => Some(InstructionType::ACBG),
            0x6FFD => Some(InstructionType::ACBH),
            0xF3 => Some(InstructionType::AOBLEQ),
            0xF2 => Some(InstructionType::AOBLSS),
            0x14 => Some(InstructionType::BGTR),
            0x15 => Some(InstructionType::BLEQ),
            0x12 => Some(InstructionType::BNEQ),
            0x13 => Some(InstructionType::BEQL),
            0x18 => Some(InstructionType::BGEQ),
            0x19 => Some(InstructionType::BLSS),
            0x1A => Some(InstructionType::BGTRU),
            0x1B => Some(InstructionType::BLEQU),
            0x1C => Some(InstructionType::BVC),
            0x1D => Some(InstructionType::BVS),
            0x1E => Some(InstructionType::BCC),
            0x1F => Some(InstructionType::BCS),
            0xE0 => Some(InstructionType::BBS),
            0xE1 => Some(InstructionType::BBC),
            0xE2 => Some(InstructionType::BBSS),
            0xE3 => Some(InstructionType::BBCS),
            0xE4 => Some(InstructionType::BBSC),
            0xE5 => Some(InstructionType::BBCC),
            0xE6 => Some(InstructionType::BBSSI),
            0xE7 => Some(InstructionType::BBCCI),
            0xE8 => Some(InstructionType::BLBS),
            0xE9 => Some(InstructionType::BLBC),
            0x11 => Some(InstructionType::BRB),
            0x31 => Some(InstructionType::BRW),
            0x10 => Some(InstructionType::BSBB),
            0x30 => Some(InstructionType::BSBW),
            0x8F => Some(InstructionType::CASEB),
            0xAF => Some(InstructionType::CASEW),
            0xCF => Some(InstructionType::CASEL),
            0x17 => Some(InstructionType::JMP),
            0x16 => Some(InstructionType::JSB),
            0x5 => Some(InstructionType::RSB),
            0xF4 => Some(InstructionType::SOBGEQ),
            0xF5 => Some(InstructionType::SOBGTR),
            0xFA => Some(InstructionType::CALLG),
            0xFB => Some(InstructionType::CALLS),
            0x4 => Some(InstructionType::RET),
            0xB9 => Some(InstructionType::BICPSW),
            0xB8 => Some(InstructionType::BISPSW),
            0x3 => Some(InstructionType::BPT),
            0xFEFF => Some(InstructionType::BUGW),
            0xFDFF => Some(InstructionType::BUGL),
            0x0 => Some(InstructionType::HALT),
            0xA => Some(InstructionType::INDEX),
            0xDC => Some(InstructionType::MOVPSL),
            0x1 => Some(InstructionType::NOP),
            0xBA => Some(InstructionType::POPR),
            0xBB => Some(InstructionType::PUSHR),
            0xFC => Some(InstructionType::XFC),
            0x5C => Some(InstructionType::INSQHI),
            0x5D => Some(InstructionType::INSQTI),
            0xE => Some(InstructionType::INSQUE),
            0x5E => Some(InstructionType::REMQHI),
            0x5F => Some(InstructionType::REMQTI),
            0xF => Some(InstructionType::REMQUE),
            0x40 => Some(InstructionType::ADDF2),
            0x41 => Some(InstructionType::ADDF3),
            0x60 => Some(InstructionType::ADDD2),
            0x61 => Some(InstructionType::ADDD3),
            0x40FD => Some(InstructionType::ADDG2),
            0x41FD => Some(InstructionType::ADDG3),
            0x60FD => Some(InstructionType::ADDH2),
            0x61FD => Some(InstructionType::ADDH3),
            0x51 => Some(InstructionType::CMPF),
            0x71 => Some(InstructionType::CMPD),
            0x51FD => Some(InstructionType::CMPG),
            0x71FD => Some(InstructionType::CMPH),
            0x4C => Some(InstructionType::CVTBF),
            0x4D => Some(InstructionType::CVTWF),
            0x4E => Some(InstructionType::CVTLF),
            0x6C => Some(InstructionType::CVTBD),
            0x6D => Some(InstructionType::CVTWD),
            0x6E => Some(InstructionType::CVTLD),
            0x4CFD => Some(InstructionType::CVTBG),
            0x4DFD => Some(InstructionType::CVTWG),
            0x4EFD => Some(InstructionType::CVTLG),
            0x6CFD => Some(InstructionType::CVTBH),
            0x6DFD => Some(InstructionType::CVTWH),
            0x6EFD => Some(InstructionType::CVTLH),
            0x48 => Some(InstructionType::CVTFB),
            0x49 => Some(InstructionType::CVTFW),
            0x4A => Some(InstructionType::CVTFL),
            0x4B => Some(InstructionType::CVTRFL),
            0x68 => Some(InstructionType::CVTDB),
            0x69 => Some(InstructionType::CVTDW),
            0x6A => Some(InstructionType::CVTDL),
            0x6B => Some(InstructionType::CVTRDL),
            0x48FD => Some(InstructionType::CVTGB),
            0x49FD => Some(InstructionType::CVTGW),
            0x4AFD => Some(InstructionType::CVTGL),
            0x4BFD => Some(InstructionType::CVTRGL),
            0x68FD => Some(InstructionType::CVTHB),
            0x69FD => Some(InstructionType::CVTHW),
            0x6AFD => Some(InstructionType::CVTHL),
            0x6BFD => Some(InstructionType::CVTRHL),
            0x56 => Some(InstructionType::CVTFD),
            0x99FD => Some(InstructionType::CVTFG),
            0x98FD => Some(InstructionType::CVTFH),
            0x76 => Some(InstructionType::CVTDF),
            0x32FD => Some(InstructionType::CVTDH),
            0x33FD => Some(InstructionType::CVTGF),
            0x56FD => Some(InstructionType::CVTGH),
            0xF6FD => Some(InstructionType::CVTHF),
            0xF7FD => Some(InstructionType::CVTHD),
            0x76FD => Some(InstructionType::CVTHG),
            0x46 => Some(InstructionType::DIVF2),
            0x47 => Some(InstructionType::DIVF3),
            0x66 => Some(InstructionType::DIVD2),
            0x67 => Some(InstructionType::DIVD3),
            0x46FD => Some(InstructionType::DIVG2),
            0x47FD => Some(InstructionType::DIVG3),
            0x66FD => Some(InstructionType::DIVH2),
            0x67FD => Some(InstructionType::DIVH3),
            0x54 => Some(InstructionType::EMODF),
            0x74 => Some(InstructionType::EMODD),
            0x54FD => Some(InstructionType::EMODG),
            0x74FD => Some(InstructionType::EMODH),
            0x52 => Some(InstructionType::MNEGF),
            0x72 => Some(InstructionType::MNEGD),
            0x52FD => Some(InstructionType::MNEGG),
            0x72FD => Some(InstructionType::MNEGH),
            0x50 => Some(InstructionType::MOVF),
            0x70 => Some(InstructionType::MOVD),
            0x50FD => Some(InstructionType::MOVG),
            0x70FD => Some(InstructionType::MOVH),
            0x44 => Some(InstructionType::MULF2),
            0x45 => Some(InstructionType::MULF3),
            0x64 => Some(InstructionType::MULD2),
            0x65 => Some(InstructionType::MULD3),
            0x44FD => Some(InstructionType::MULG2),
            0x45FD => Some(InstructionType::MULG3),
            0x64FD => Some(InstructionType::MULH2),
            0x65FD => Some(InstructionType::MULH3),
            0x55 => Some(InstructionType::POLYF),
            0x75 => Some(InstructionType::POLYD),
            0x55FD => Some(InstructionType::POLYG),
            0x75FD => Some(InstructionType::POLYH),
            0x42 => Some(InstructionType::SUBF2),
            0x43 => Some(InstructionType::SUBF3),
            0x62 => Some(InstructionType::SUBD2),
            0x63 => Some(InstructionType::SUBD3),
            0x42FD => Some(InstructionType::SUBG2),
            0x43FD => Some(InstructionType::SUBG3),
            0x62FD => Some(InstructionType::SUBH2),
            0x63FD => Some(InstructionType::SUBH3),
            0x53 => Some(InstructionType::TSTF),
            0x73 => Some(InstructionType::TSTD),
            0x53FD => Some(InstructionType::TSTG),
            0x73FD => Some(InstructionType::TSTH),
            0x2 => Some(InstructionType::REI),
            0xBC => Some(InstructionType::CHMK),
            0xBD => Some(InstructionType::CHME),
            0xBE => Some(InstructionType::CHMS),
            0xBF => Some(InstructionType::CHMU),
            0x6 => Some(InstructionType::LDPCTX),
            0x7 => Some(InstructionType::SVPCTX),
            0xDA => Some(InstructionType::MTPR),
            0xDB => Some(InstructionType::MFPR),
            _ => None,
        }
    }
}

/// The opcode table read forward and backward agrees: looking up the opcode
/// of any instruction finds that instruction again. In particular no two
/// instructions share an opcode.
pub proof fn lemma_opcode_table_round_trip(i: InstructionType)
    ensures
        spec_from_opcode(opcode_of(i)) == Some(i),
{
}

/// The access mode each operand field of the instruction demands.
pub open spec fn spec_field_modes(i: InstructionType) -> Seq<FieldMode> {
    match i {
        InstructionType::ADAWI => seq![FieldMode::Read, FieldMode::Modify],
        InstructionType::ADDB2 | InstructionType::ADDW2 | InstructionType::ADDL2 => seq![FieldMode::Read, FieldMode::Modify],
        InstructionType::ADDB3 | InstructionType::ADDW3 | InstructionType::ADDL3 => seq![FieldMode::Read, FieldMode::Read, FieldMode::Write],
        InstructionType::ADWC => seq![FieldMode::Read, FieldMode::Modify],
        InstructionType::ASHL | InstructionType::ASHQ => seq![FieldMode::Read, FieldMode::Read, FieldMode::Write],
        InstructionType::BICB2 | InstructionType::BICW2 | InstructionType::BICL2 => seq![FieldMode::Read, FieldMode::Modify],
        InstructionType::BICB3 | InstructionType::BICW3 | InstructionType::BICL3 => seq![FieldMode::Read, FieldMode::Read, FieldMode::Write],
        InstructionType::BISB2 | InstructionType::BISW2 | InstructionType::BISL2 => seq![FieldMode::Read, FieldMode::Modify],
        InstructionType::BISB3 | InstructionType::BISW3 | InstructionType::BISL3 => seq![FieldMode::Read, FieldMode::Read, FieldMode::Write],
        InstructionType::BITB | InstructionType::BITW | InstructionType::BITL => seq![FieldMode::Read, FieldMode::Read],
        InstructionType::CLRB | InstructionType::CLRW | InstructionType::CLRL | InstructionType::CLRQ | InstructionType::CLRO => seq![FieldMode::Write],
        InstructionType::CMPB | InstructionType::CMPW | InstructionType::CMPL => seq![FieldMode::Read, FieldMode::Read],
        InstructionType::CVTBW | InstructionType::CVTBL | InstructionType::CVTWB | InstructionType::CVTWL | InstructionType::CVTLB | InstructionType::CVTLW => seq![FieldMode::Read, FieldMode::Write],
        InstructionType::DECB | InstructionType::DECW | InstructionType::DECL => seq![FieldMode::Modify],
        InstructionType::DIVB2 | InstructionType::DIVW2 | InstructionType::DIVL2 => seq![FieldMode::Read, FieldMode::Modify],
        InstructionType::DIVB3 | InstructionType::DIVW3 | InstructionType::DIVL3 => seq![FieldMode::Read, FieldMode::Read, FieldMode::Write],
        InstructionType::EDIV => seq![FieldMode::Read, FieldMode::Read, FieldMode::Write, FieldMode::Write],
        InstructionType::EMUL => seq![FieldMode::Read, FieldMode::Read, FieldMode::Read, FieldMode::Write],
        InstructionType::INCB | InstructionType::INCW | InstructionType::INCL => seq![FieldMode::Modify],
        InstructionType::MCOMB | InstructionType::MCOMW | InstructionType::MCOML => seq![FieldMode::Read, FieldMode::Write],
        InstructionType::MNEGB | InstructionType::MNEGW | InstructionType::MNEGL => seq![FieldMode::Read, FieldMode::Write],
        InstructionType::MOVB | InstructionType::MOVW | InstructionType::MOVL | InstructionType::MOVQ | InstructionType::MOVO => seq![FieldMode::Read, FieldMode::Write],
        InstructionType::MOVZBW | InstructionType::MOVZBL | InstructionType::MOVZWL => seq![FieldMode::Read, FieldMode::Write],
        InstructionType::MULB2 | InstructionType::MULW2 | InstructionType::MULL2 => seq![FieldMode::Read, FieldMode::Modify],
        InstructionType::MULB3 | InstructionType::MULW3 | InstructionType::MULL3 => seq![FieldMode::Read, FieldMode::Read, FieldMode::Write],
        InstructionType::PUSHL => seq![FieldMode::Read],
        InstructionType::ROTL => seq![FieldMode::Read, FieldMode::Read, FieldMode::Write],
        InstructionType::SBWC => seq![FieldMode::Read, FieldMode::Modify],
        InstructionType::SUBB2 | InstructionType::SUBW2 | InstructionType::SUBL2 => seq![FieldMode::Read, FieldMode::Modify],
        InstructionType::SUBB3 | InstructionType::SUBW3 | InstructionType::SUBL3 => seq![FieldMode::Read, FieldMode::Read, FieldMode::Write],
        InstructionType::TSTB | InstructionType::TSTW | InstructionType::TSTL => seq![FieldMode::Read],
        InstructionType::XORB2 | InstructionType::XORW2 | InstructionType::XORL2 => seq![FieldMode::Read, FieldMode::Modify],
        InstructionType::XORB3 | InstructionType::XORW3 | InstructionType::XORL3 => seq![FieldMode::Read, FieldMode::Read, FieldMode::Write],
        InstructionType::MOVAB | InstructionType::MOVAW | InstructionType::MOVAL | InstructionType::MOVAQ | InstructionType::MOVAO => seq![FieldMode::Address, FieldMode::Write],
        InstructionType::PUSHAB | InstructionType::PUSHAW | InstructionType::PUSHAL | InstructionType::PUSHAQ | InstructionType::PUSHAO => seq![FieldMode::Address],
        InstructionType::CMPV | InstructionType::CMPZV => seq![FieldMode::Read, FieldMode::Read, FieldMode::Bitfield, FieldMode::Read],
        InstructionType::EXTV | InstructionType::EXTZV => seq![FieldMode::Read, FieldMode::Read, FieldMode::Bitfield, FieldMode::Write],
        InstructionType::FFC | InstructionType::FFS => seq![FieldMode::Read, FieldMode::Read, FieldMode::Bitfield, FieldMode::Write],
        InstructionType::INSV => seq![FieldMode::Read, FieldMode::Read, FieldMode::Read, FieldMode::Bitfield],
        InstructionType::ACBB | InstructionType::ACBW | InstructionType::ACBL | InstructionType::ACBF | InstructionType::ACBD | InstructionType::ACBG | InstructionType::ACBH => seq![FieldMode::Read, FieldMode::Read, FieldMode::Modify, FieldMode::Data],
        InstructionType::AOBLEQ => seq![FieldMode::Read, FieldMode::Modify, FieldMode::Data],
        InstructionType::AOBLSS => seq![FieldMode::Read, FieldMode::Modify, FieldMode::Data],
        InstructionType::BGTR | InstructionType::BLEQ | InstructionType::BNEQ | InstructionType::BEQL | InstructionType::BGEQ | InstructionType::BLSS | InstructionType::BGTRU | InstructionType::BLEQU | InstructionType::BVC | InstructionType::BVS | InstructionType::BCC | InstructionType::BCS => seq![FieldMode::Data],
        InstructionType::BBS | InstructionType::BBC => seq![FieldMode::Read, FieldMode::Bitfield, FieldMode::Data],
        InstructionType::BBSS | InstructionType::BBCS | InstructionType::BBSC | InstructionType::BBCC => seq![FieldMode::Read, FieldMode::Bitfield, FieldMode::Data],
        InstructionType::BBSSI | InstructionType::BBCCI => seq![FieldMode::Read, FieldMode::Bitfield, FieldMode::Data],
        InstructionType::BLBS | InstructionType::BLBC => seq![FieldMode::Read, FieldMode::Data],
        InstructionType::BRB | InstructionType::BSBB => seq![FieldMode::Data],
        InstructionType::BRW | InstructionType::BSBW => seq![FieldMode::Data],
        InstructionType::CASEB | InstructionType::CASEW | InstructionType::CASEL => seq![FieldMode::Read, FieldMode::Read, FieldMode::Read, FieldMode::VariableLengthTable],
        InstructionType::JMP => seq![FieldMode::Address],
        InstructionType::JSB => seq![FieldMode::Address],
        InstructionType::RSB => Seq::<FieldMode>::empty(),
        InstructionType::SOBGEQ => seq![FieldMode::Modify, FieldMode::Data],
        InstructionType::SOBGTR => seq![FieldMode::Modify, FieldMode::Data],
        InstructionType::CALLG => seq![FieldMode::Address, FieldMode::Address],
        InstructionType::CALLS => seq![FieldMode::Read, FieldMode::Address],
        InstructionType::RET => Seq::<FieldMode>::empty(),
        InstructionType::BICPSW => seq![FieldMode::Read],
        InstructionType::BISPSW => seq![FieldMode::Read],
        InstructionType::BPT => Seq::<FieldMode>::empty(),
        InstructionType::BUGW => seq![FieldMode::Data],
        InstructionType::BUGL => seq![FieldMode::Data],
        InstructionType::HALT => Seq::<FieldMode>::empty(),
        InstructionType::INDEX => seq![FieldMode::Read, FieldMode::Read, FieldMode::Read, FieldMode::Read, FieldMode::Read, FieldMode::Write],
        InstructionType::MOVPSL => seq![FieldMode::Write],
        InstructionType::NOP => Seq::<FieldMode>::empty(),
        InstructionType::POPR => seq![FieldMode::Read],
        InstructionType::PUSHR => seq![FieldMode::Read],
        InstructionType::XFC => Seq::<FieldMode>::empty(),
        InstructionType::INSQHI => seq![FieldMode::Address, FieldMode::Address],
        InstructionType::INSQTI => seq![FieldMode::Address, FieldMode::Address],
        InstructionType::INSQUE => seq![FieldMode::Address, FieldMode::Address],
        InstructionType::REMQHI => seq![FieldMode::Address, FieldMode::Write],
        InstructionType::REMQTI => seq![FieldMode::Address, FieldMode::Write],
        InstructionType::REMQUE => seq![FieldMode::Address, FieldMode::Write],
        InstructionType::ADDF2 | InstructionType::ADDD2 | InstructionType::ADDG2 | InstructionType::ADDH2 => seq![FieldMode::Read, FieldMode::Modify],
        InstructionType::ADDF3 | InstructionType::ADDD3 | InstructionType::ADDG3 | InstructionType::ADDH3 => seq![FieldMode::Read, FieldMode::Read, FieldMode::Write],
        InstructionType::CMPF | InstructionType::CMPD | InstructionType::CMPG | InstructionType::CMPH => seq![FieldMode::Read, FieldMode::Read],
        InstructionType::CVTBF | InstructionType::CVTWF | InstructionType::CVTLF | InstructionType::CVTBD | InstructionType::CVTWD | InstructionType::CVTLD | InstructionType::CVTBG | InstructionType::CVTWG | InstructionType::CVTLG | InstructionType::CVTBH | InstructionType::CVTWH | InstructionType::CVTLH | InstructionType::CVTFB | InstructionType::CVTFW | InstructionType::CVTFL | InstructionType::CVTRFL | InstructionType::CVTDB | InstructionType::CVTDW | InstructionType::CVTDL | InstructionType::CVTRDL | InstructionType::CVTGB | InstructionType::CVTGW | InstructionType::CVTGL | InstructionType::CVTRGL | InstructionType::CVTHB | InstructionType::CVTHW | InstructionType::CVTHL | InstructionType::CVTFD | InstructionType::CVTFG | InstructionType::CVTFH | InstructionType::CVTDF | InstructionType::CVTDH | InstructionType::CVTGF | InstructionType::CVTGH | InstructionType::CVTHF | InstructionType::CVTHD | InstructionType::CVTHG | InstructionType::CVTRHL => seq![FieldMode::Read, FieldMode::Write],
        InstructionType::DIVF2 | InstructionType::DIVD2 | InstructionType::DIVG2 | InstructionType::DIVH2 => seq![FieldMode::Read, FieldMode::Modify],
        InstructionType::DIVF3 | InstructionType::DIVD3 | InstructionType::DIVG3 | InstructionType::DIVH3 => seq![FieldMode::Read, FieldMode::Read, FieldMode::Write],
        InstructionType::EMODF | InstructionType::EMODD | InstructionType::EMODG | InstructionType::EMODH => seq![FieldMode::Read, FieldMode::Read, FieldMode::Read, FieldMode::Write, FieldMode::Write],
        InstructionType::MNEGF | InstructionType::MNEGD | InstructionType::MNEGG | InstructionType::MNEGH => seq![FieldMode::Read, FieldMode::Write],
        InstructionType::MOVF | InstructionType::MOVD | InstructionType::MOVG | InstructionType::MOVH => seq![FieldMode::Read, FieldMode::Write],
        InstructionType::MULF2 | InstructionType::MULD2 | InstructionType::MULG2 | InstructionType::MULH2 => seq![FieldMode::Read, FieldMode::Modify],
        InstructionType::MULF3 | InstructionType::MULD3 | InstructionType::MULG3 | InstructionType::MULH3 => seq![FieldMode::Read, FieldMode::Read, FieldMode::Write],
        InstructionType::POLYF | InstructionType::POLYD | InstructionType::POLYG | InstructionType::POLYH => seq![FieldMode::Read, FieldMode::Read, FieldMode::Address],
        InstructionType::SUBF2 | InstructionType::SUBD2 | InstructionType::SUBG2 | InstructionType::SUBH2 => seq![FieldMode::Read, FieldMode::Modify],
        InstructionType::SUBF3 | InstructionType::SUBD3 | InstructionType::SUBG3 | InstructionType::SUBH3 => seq![FieldMode::Read, FieldMode::Read, FieldMode::Write],
        InstructionType::TSTF | InstructionType::TSTD | InstructionType::TSTG | InstructionType::TSTH => seq![FieldMode::Read],
        InstructionType::REI => Seq::<FieldMode>::empty(),
        InstructionType::CHMK | InstructionType::CHME | InstructionType::CHMS | InstructionType::CHMU => seq![FieldMode::Read],
        InstructionType::LDPCTX => Seq::<FieldMode>::empty(),
        InstructionType::SVPCTX => Seq::<FieldMode>::empty(),
        InstructionType::MTPR => seq![FieldMode::Read, FieldMode::Read],
        InstructionType::MFPR => seq![FieldMode::Read, FieldMode::Write],
    }
}

/// The operand width each field of the instruction declares.
pub open spec fn spec_field_widths(i: InstructionType) -> Seq<OperandWidth> {
    match i {
        InstructionType::ADAWI => seq![OperandWidth::Word, OperandWidth::Word],
        InstructionType::ADDB2 => seq![OperandWidth::Byte, OperandWidth::Byte],
        InstructionType::ADDB3 => seq![OperandWidth::Byte, OperandWidth::Byte, OperandWidth::Byte],
        InstructionType::ADDW2 => seq![OperandWidth::Word, OperandWidth::Word],
        InstructionType::ADDW3 => seq![OperandWidth::Word, OperandWidth::Word, OperandWidth::Word],
        InstructionType::ADDL2 => seq![OperandWidth::Longword, OperandWidth::Longword],
        InstructionType::ADDL3 => seq![OperandWidth::Longword, OperandWidth::Longword, OperandWidth::Longword],
        InstructionType::ADWC => seq![OperandWidth::Longword, OperandWidth::Longword],
        InstructionType::ASHL => seq![OperandWidth::Byte, OperandWidth::Longword, OperandWidth::Longword],
        InstructionType::ASHQ => seq![OperandWidth::Byte, OperandWidth::Quadword, OperandWidth::Quadword],
        InstructionType::BICB2 => seq![OperandWidth::Byte, OperandWidth::Byte],
        InstructionType::BICB3 => seq![OperandWidth::Byte, OperandWidth::Byte, OperandWidth::Byte],
        InstructionType::BICW2 => seq![OperandWidth::Word, OperandWidth::Word],
        InstructionType::BICW3 => seq![OperandWidth::Word, OperandWidth::Word, OperandWidth::Word],
        InstructionType::BICL2 => seq![OperandWidth::Longword, OperandWidth::Longword],
        InstructionType::BICL3 => seq![OperandWidth::Longword, OperandWidth::Longword, OperandWidth::Longword],
        InstructionType::BISB2 => seq![OperandWidth::Byte, OperandWidth::Byte],
        InstructionType::BISB3 => seq![OperandWidth::Byte, OperandWidth::Byte, OperandWidth::Byte],
        InstructionType::BISW2 => seq![OperandWidth::Word, OperandWidth::Word],
        InstructionType::BISW3 => seq![OperandWidth::Word, OperandWidth::Word, OperandWidth::Word],
        InstructionType::BISL2 => seq![OperandWidth::Longword, OperandWidth::Longword],
        InstructionType::BISL3 => seq![OperandWidth::Longword, OperandWidth::Longword, OperandWidth::Longword],
        InstructionType::BITB => seq![OperandWidth::Byte, OperandWidth::Byte],
        InstructionType::BITW => seq![OperandWidth::Word, OperandWidth::Word],
        InstructionType::BITL => seq![OperandWidth::Longword, OperandWidth::Longword],
        InstructionType::CLRB => seq![OperandWidth::Byte],
        InstructionType::CLRW => seq![OperandWidth::Word],
        InstructionType::CLRL => seq![OperandWidth::Longword],
        InstructionType::CLRQ => seq![OperandWidth::Quadword],
        InstructionType::CLRO => seq![OperandWidth::Octaword],
        InstructionType::CMPB => seq![OperandWidth::Byte, OperandWidth::Byte],
        InstructionType::CMPW => seq![OperandWidth::Word, OperandWidth::Word],
        InstructionType::CMPL => seq![OperandWidth::Longword, OperandWidth::Longword],
        InstructionType::CVTBW => seq![OperandWidth::Byte, OperandWidth::Word],
        InstructionType::CVTBL => seq![OperandWidth::Byte, OperandWidth::Longword],
        InstructionType::CVTWB => seq![OperandWidth::Word, OperandWidth::Byte],
        InstructionType::CVTWL => seq![OperandWidth::Word, OperandWidth::Longword],
        InstructionType::CVTLB => seq![OperandWidth::Longword, OperandWidth::Byte],
        InstructionType::CVTLW => seq![OperandWidth::Longword, OperandWidth::Word],
        InstructionType::DECB => seq![OperandWidth::Byte],
        InstructionType::DECW => seq![OperandWidth::Word],
        InstructionType::DECL => seq![OperandWidth::Longword],
        InstructionType::DIVB2 => seq![OperandWidth::Byte, OperandWidth::Byte],
        InstructionType::DIVB3 => seq![OperandWidth::Byte, OperandWidth::Byte, OperandWidth::Byte],
        InstructionType::DIVW2 => seq![OperandWidth::Word, OperandWidth::Word],
        InstructionType::DIVW3 => seq![OperandWidth::Word, OperandWidth::Word, OperandWidth::Word],
        InstructionType::DIVL2 => seq![OperandWidth::Longword, OperandWidth::Longword],
        InstructionType::DIVL3 => seq![OperandWidth::Longword, OperandWidth::Longword, OperandWidth::Longword],
        InstructionType::EDIV => seq![OperandWidth::Longword, OperandWidth::Quadword, OperandWidth::Longword, OperandWidth::Longword],
        InstructionType::EMUL => seq![OperandWidth::Longword, OperandWidth::Longword, OperandWidth::Longword, OperandWidth::Quadword],
        InstructionType::INCB => seq![OperandWidth::Byte],
        InstructionType::INCW => seq![OperandWidth::Word],
        InstructionType::INCL => seq![OperandWidth::Longword],
        InstructionType::MCOMB => seq![OperandWidth::Byte, OperandWidth::Byte],
        InstructionType::MCOMW => seq![OperandWidth::Word, OperandWidth::Word],
        InstructionType::MCOML => seq![OperandWidth::Longword, OperandWidth::Longword],
        InstructionType::MNEGB => seq![OperandWidth::Byte, OperandWidth::Byte],
        InstructionType::MNEGW => seq![OperandWidth::Word, OperandWidth::Word],
        InstructionType::MNEGL => seq![OperandWidth::Longword, OperandWidth::Longword],
        InstructionType::MOVB => seq![OperandWidth::Byte, OperandWidth::Byte],
        InstructionType::MOVW => seq![OperandWidth::Word, OperandWidth::Word],
        InstructionType::MOVL => seq![OperandWidth::Longword, OperandWidth::Longword],
        InstructionType::MOVQ => seq![OperandWidth::Quadword, OperandWidth::Quadword],
        InstructionType::MOVO => seq![OperandWidth::Octaword, OperandWidth::Octaword],
        InstructionType::MOVZBW => seq![OperandWidth::Byte, OperandWidth::Word],
        InstructionType::MOVZBL => seq![OperandWidth::Byte, OperandWidth::Longword],
        InstructionType::MOVZWL => seq![OperandWidth::Word, OperandWidth::Longword],
        InstructionType::MULB2 => seq![OperandWidth::Byte, OperandWidth::Byte],
        InstructionType::MULB3 => seq![OperandWidth::Byte, OperandWidth::Byte, OperandWidth::Byte],
        InstructionType::MULW2 => seq![OperandWidth::Word, OperandWidth::Word],
        InstructionType::MULW3 => seq![OperandWidth::Word, OperandWidth::Word, OperandWidth::Word],
        InstructionType::MULL2 => seq![OperandWidth::Longword, OperandWidth::Longword],
        InstructionType::MULL3 => seq![OperandWidth::Longword, OperandWidth::Longword, OperandWidth::Longword],
        InstructionType::PUSHL => seq![OperandWidth::Longword],
        InstructionType::ROTL => seq![OperandWidth::Byte, OperandWidth::Longword, OperandWidth::Longword],
        InstructionType::SBWC => seq![OperandWidth::Longword, OperandWidth::Longword],
        InstructionType::SUBB2 => seq![OperandWidth::Byte, OperandWidth::Byte],
        InstructionType::SUBB3 => seq![OperandWidth::Byte, OperandWidth::Byte, OperandWidth::Byte],
        InstructionType::SUBW2 => seq![OperandWidth::Word, OperandWidth::Word],
        InstructionType::SUBW3 => seq![OperandWidth::Word, OperandWidth::Word, OperandWidth::Word],
        InstructionType::SUBL2 => seq![OperandWidth::Longword, OperandWidth::Longword],
        InstructionType::SUBL3 => seq![OperandWidth::Longword, OperandWidth::Longword, OperandWidth::Longword],
        InstructionType::TSTB => seq![OperandWidth::Byte],
        InstructionType::TSTW => seq![OperandWidth::Word],
        InstructionType::TSTL => seq![OperandWidth::Longword],
        InstructionType::XORB2 => seq![OperandWidth::Byte, OperandWidth::Byte],
        InstructionType::XORB3 => seq![OperandWidth::Byte, OperandWidth::Byte, OperandWidth::Byte],
        InstructionType::XORW2 => seq![OperandWidth::Word, OperandWidth::Word],
        InstructionType::XORW3 => seq![OperandWidth::Word, OperandWidth::Word, OperandWidth::Word],
        InstructionType::XORL2 => seq![OperandWidth::Longword, OperandWidth::Longword],
        InstructionType::XORL3 => seq![OperandWidth::Longword, OperandWidth::Longword, OperandWidth::Longword],
        InstructionType::MOVAB => seq![OperandWidth::Byte, OperandWidth::Longword],
        InstructionType::MOVAW => seq![OperandWidth::Word, OperandWidth::Longword],
        InstructionType::MOVAL => seq![OperandWidth::Longword, OperandWidth::Longword],
        InstructionType::MOVAQ => seq![OperandWidth::Quadword, OperandWidth::Longword],
        InstructionType::MOVAO => seq![OperandWidth::Octaword, OperandWidth::Longword],
        InstructionType::PUSHAB => seq![OperandWidth::Byte],
        InstructionType::PUSHAW => seq![OperandWidth::Word],
        InstructionType::PUSHAL => seq![OperandWidth::Longword],
        InstructionType::PUSHAQ => seq![OperandWidth::Quadword],
        InstructionType::PUSHAO => seq![OperandWidth::Octaword],
        InstructionType::CMPV => seq![OperandWidth::Longword, OperandWidth::Byte, OperandWidth::Byte, OperandWidth::Longword],
        InstructionType::CMPZV => seq![OperandWidth::Longword, OperandWidth::Byte, OperandWidth::Byte, OperandWidth::Longword],
        InstructionType::EXTV => seq![OperandWidth::Longword, OperandWidth::Byte, OperandWidth::Byte, OperandWidth::Longword],
        InstructionType::EXTZV => seq![OperandWidth::Longword, OperandWidth::Byte, OperandWidth::Byte, OperandWidth::Longword],
        InstructionType::FFC => seq![OperandWidth::Longword, OperandWidth::Byte, OperandWidth::Byte, OperandWidth::Longword],
        InstructionType::FFS => seq![OperandWidth::Longword, OperandWidth::Byte, OperandWidth::Byte, OperandWidth::Longword],
        InstructionType::INSV => seq![OperandWidth::Longword, OperandWidth::Longword, OperandWidth::Byte, OperandWidth::Byte],
        InstructionType::ACBB => seq![OperandWidth::Byte, OperandWidth::Byte, OperandWidth::Byte, OperandWidth::Word],
        InstructionType::ACBW => seq![OperandWidth::Word, OperandWidth::Word, OperandWidth::Word, OperandWidth::Word],
        InstructionType::ACBL => seq![OperandWidth::Longword, OperandWidth::Longword, OperandWidth::Longword, OperandWidth::Word],
        InstructionType::ACBF => seq![OperandWidth::Longword, OperandWidth::Longword, OperandWidth::Longword, OperandWidth::Word],
        InstructionType::ACBD => seq![OperandWidth::Quadword, OperandWidth::Quadword, OperandWidth::Quadword, OperandWidth::Word],
        InstructionType::ACBG => seq![OperandWidth::Quadword, OperandWidth::Quadword, OperandWidth::Quadword, OperandWidth::Word],
        InstructionType::ACBH => seq![OperandWidth::Octaword, OperandWidth::Octaword, OperandWidth::Octaword, OperandWidth::Word],
        InstructionType::AOBLEQ => seq![OperandWidth::Longword, OperandWidth::Longword, OperandWidth::Byte],
        InstructionType::AOBLSS => seq![OperandWidth::Longword, OperandWidth::Longword, OperandWidth::Byte],
        InstructionType::BGTR | InstructionType::BLEQ | InstructionType::BNEQ | InstructionType::BEQL | InstructionType::BGEQ | InstructionType::BLSS | InstructionType::BGTRU | InstructionType::BLEQU | InstructionType::BVC | InstructionType::BVS | InstructionType::BCC | InstructionType::BCS => seq![OperandWidth::Byte],
        InstructionType::BBS => seq![OperandWidth::Longword, OperandWidth::Byte, OperandWidth::Byte],
        InstructionType::BBC => seq![OperandWidth::Longword, OperandWidth::Byte, OperandWidth::Byte],
        InstructionType::BBSS => seq![OperandWidth::Longword, OperandWidth::Byte, OperandWidth::Byte],
        InstructionType::BBCS => seq![OperandWidth::Longword, OperandWidth::Byte, OperandWidth::Byte],
        InstructionType::BBSC => seq![OperandWidth::Longword, OperandWidth::Byte, OperandWidth::Byte],
        InstructionType::BBCC => seq![OperandWidth::Longword, OperandWidth::Byte, OperandWidth::Byte],
        InstructionType::BBSSI => seq![OperandWidth::Longword, OperandWidth::Byte, OperandWidth::Byte],
        InstructionType::BBCCI => seq![OperandWidth::Longword, OperandWidth::Byte, OperandWidth::Byte],
        InstructionType::BLBS => seq![OperandWidth::Longword, OperandWidth::Byte],
        InstructionType::BLBC => seq![OperandWidth::Longword, OperandWidth::Byte],
        InstructionType::BRB => seq![OperandWidth::Byte],
        InstructionType::BRW => seq![OperandWidth::Word],
        InstructionType::BSBB => seq![OperandWidth::Byte],
        InstructionType::BSBW => seq![OperandWidth::Word],
        InstructionType::CASEB => seq![OperandWidth::Byte, OperandWidth::Byte, OperandWidth::Byte, OperandWidth::Word],
        InstructionType::CASEW => seq![OperandWidth::Word, OperandWidth::Word, OperandWidth::Word, OperandWidth::Word],
        InstructionType::CASEL => seq![OperandWidth::Longword, OperandWidth::Longword, OperandWidth::Longword, OperandWidth::Word],
        InstructionType::JMP => seq![OperandWidth::Byte],
        InstructionType::JSB => seq![OperandWidth::Byte],
        InstructionType::RSB => Seq::<OperandWidth>::empty(),
        InstructionType::SOBGEQ => seq![OperandWidth::Longword, OperandWidth::Byte],
        InstructionType::SOBGTR => seq![OperandWidth::Longword, OperandWidth::Byte],
        InstructionType::CALLG => seq![OperandWidth::Byte, OperandWidth::Byte],
        InstructionType::CALLS => seq![OperandWidth::Longword, OperandWidth::Byte],
        InstructionType::RET => Seq::<OperandWidth>::empty(),
        InstructionType::BICPSW => seq![OperandWidth::Word],
        InstructionType::BISPSW => seq![OperandWidth::Word],
        InstructionType::BPT => Seq::<OperandWidth>::empty(),
        InstructionType::BUGW => seq![OperandWidth::Word],
        InstructionType::BUGL => seq![OperandWidth::Longword],
        InstructionType::HALT => Seq::<OperandWidth>::empty(),
        InstructionType::INDEX => seq![OperandWidth::Longword, OperandWidth::Longword, OperandWidth::Longword, OperandWidth::Longword, OperandWidth::Longword, OperandWidth::Longword],
        InstructionType::MOVPSL => seq![OperandWidth::Longword],
        InstructionType::NOP => Seq::<OperandWidth>::empty(),
        InstructionType::POPR => seq![OperandWidth::Word],
        InstructionType::PUSHR => seq![OperandWidth::Word],
        InstructionType::XFC => Seq::<OperandWidth>::empty(),
        InstructionType::INSQHI => seq![OperandWidth::Byte, OperandWidth::Quadword],
        InstructionType::INSQTI => seq![OperandWidth::Byte, OperandWidth::Quadword],
        InstructionType::INSQUE => seq![OperandWidth::Byte, OperandWidth::Byte],
        InstructionType::REMQHI => seq![OperandWidth::Quadword, OperandWidth::Longword],
        InstructionType::REMQTI => seq![OperandWidth::Quadword, OperandWidth::Longword],
        InstructionType::REMQUE => seq![OperandWidth::Byte, OperandWidth::Longword],
        InstructionType::ADDF2 => seq![OperandWidth::Longword, OperandWidth::Longword],
        InstructionType::ADDF3 => seq![OperandWidth::Longword, OperandWidth::Longword, OperandWidth::Longword],
        InstructionType::ADDD2 => seq![OperandWidth::Quadword, OperandWidth::Quadword],
        InstructionType::ADDD3 => seq![OperandWidth::Quadword, OperandWidth::Quadword, OperandWidth::Quadword],
        InstructionType::ADDG2 => seq![OperandWidth::Quadword, OperandWidth::Quadword],
        InstructionType::ADDG3 => seq![OperandWidth::Quadword, OperandWidth::Quadword, OperandWidth::Quadword],
        InstructionType::ADDH2 => seq![OperandWidth::Octaword, OperandWidth::Octaword],
        InstructionType::ADDH3 => seq![OperandWidth::Octaword, OperandWidth::Octaword, OperandWidth::Octaword],
        InstructionType::CMPF => seq![OperandWidth::Longword, OperandWidth::Longword],
        InstructionType::CMPD => seq![OperandWidth::Quadword, OperandWidth::Quadword],
        InstructionType::CMPG => seq![OperandWidth::Quadword, OperandWidth::Quadword],
        InstructionType::CMPH => seq![OperandWidth::Octaword, OperandWidth::Octaword],
        InstructionType::CVTBF => seq![OperandWidth::Byte, OperandWidth::Longword],
        InstructionType::CVTWF => seq![OperandWidth::Word, OperandWidth::Longword],
        InstructionType::CVTLF => seq![OperandWidth::Longword, OperandWidth::Longword],
        InstructionType::CVTBD | InstructionType::CVTBG => seq![OperandWidth::Byte, OperandWidth::Quadword],
        InstructionType::CVTWD | InstructionType::CVTWG => seq![OperandWidth::Word, OperandWidth::Quadword],
        InstructionType::CVTLD | InstructionType::CVTLG => seq![OperandWidth::Longword, OperandWidth::Quadword],
        InstructionType::CVTBH => seq![OperandWidth::Byte, OperandWidth::Octaword],
        InstructionType::CVTWH => seq![OperandWidth::Word, OperandWidth::Quadword],
        InstructionType::CVTLH => seq![OperandWidth::Longword, OperandWidth::Octaword],
        InstructionType::CVTFB => seq![OperandWidth::Longword, OperandWidth::Byte],
        InstructionType::CVTFW => seq![OperandWidth::Longword, OperandWidth::Word],
        InstructionType::CVTFL | InstructionType::CVTRFL => seq![OperandWidth::Longword, OperandWidth::Longword],
        InstructionType::CVTDB | InstructionType::CVTGB => seq![OperandWidth::Quadword, OperandWidth::Byte],
        InstructionType::CVTDW | InstructionType::CVTGW => seq![OperandWidth::Quadword, OperandWidth::Word],
        InstructionType::CVTDL | InstructionType::CVTGL | InstructionType::CVTRDL | InstructionType::CVTRGL => seq![OperandWidth::Quadword, OperandWidth::Longword],
        InstructionType::CVTHB => seq![OperandWidth::Octaword, OperandWidth::Byte],
        InstructionType::CVTHW => seq![OperandWidth::Octaword, OperandWidth::Word],
        InstructionType::CVTHL | InstructionType::CVTRHL => seq![OperandWidth::Octaword, OperandWidth::Longword],
        InstructionType::CVTFD | InstructionType::CVTFG => seq![OperandWidth::Longword, OperandWidth::Quadword],
        InstructionType::CVTFH => seq![OperandWidth::Longword, OperandWidth::Octaword],
        InstructionType::CVTDF | InstructionType::CVTGF => seq![OperandWidth::Quadword, OperandWidth::Longword],
        InstructionType::CVTDH | InstructionType::CVTGH => seq![OperandWidth::Quadword, OperandWidth::Octaword],
        InstructionType::CVTHF => seq![OperandWidth::Octaword, OperandWidth::Longword],
        InstructionType::CVTHD | InstructionType::CVTHG => seq![OperandWidth::Octaword, OperandWidth::Longword],
        InstructionType::DIVF2 => seq![OperandWidth::Longword, OperandWidth::Longword],
        InstructionType::DIVF3 => seq![OperandWidth::Longword, OperandWidth::Longword, OperandWidth::Longword],
        InstructionType::DIVD2 | InstructionType::DIVG2 => seq![OperandWidth::Quadword, OperandWidth::Quadword],
        InstructionType::DIVD3 | InstructionType::DIVG3 => seq![OperandWidth::Quadword, OperandWidth::Quadword, OperandWidth::Quadword],
        InstructionType::DIVH2 => seq![OperandWidth::Octaword, OperandWidth::Octaword],
        InstructionType::DIVH3 => seq![OperandWidth::Octaword, OperandWidth::Octaword, OperandWidth::Octaword],
        InstructionType::EMODF => seq![OperandWidth::Longword, OperandWidth::Byte, OperandWidth::Longword, OperandWidth::Longword, OperandWidth::Longword],
        InstructionType::EMODD => seq![OperandWidth::Quadword, OperandWidth::Byte, OperandWidth::Quadword, OperandWidth::Longword, OperandWidth::Quadword],
        InstructionType::EMODG => seq![OperandWidth::Quadword, OperandWidth::Word, OperandWidth::Quadword, OperandWidth::Longword, OperandWidth::Quadword],
        InstructionType::EMODH => seq![OperandWidth::Octaword, OperandWidth::Byte, OperandWidth::Octaword, OperandWidth::Octaword, OperandWidth::Octaword],
        InstructionType::MNEGF => seq![OperandWidth::Longword, OperandWidth::Longword],
        InstructionType::MNEGD | InstructionType::MNEGG => seq![OperandWidth::Quadword, OperandWidth::Quadword],
        InstructionType::MNEGH => seq![OperandWidth::Octaword, OperandWidth::Octaword],
        InstructionType::MOVF => seq![OperandWidth::Longword, OperandWidth::Longword],
        InstructionType::MOVD | InstructionType::MOVG => seq![OperandWidth::Quadword, OperandWidth::Quadword],
        InstructionType::MOVH => seq![OperandWidth::Octaword, OperandWidth::Octaword],
        InstructionType::MULF2 => seq![OperandWidth::Longword, OperandWidth::Longword],
        InstructionType::MULF3 => seq![OperandWidth::Longword, OperandWidth::Longword, OperandWidth::Longword],
        InstructionType::MULD2 | InstructionType::MULG2 => seq![OperandWidth::Quadword, OperandWidth::Quadword],
        InstructionType::MULD3 | InstructionType::MULG3 => seq![OperandWidth::Quadword, OperandWidth::Quadword, OperandWidth::Quadword],
        InstructionType::MULH2 => seq![OperandWidth::Octaword, OperandWidth::Octaword],
        InstructionType::MULH3 => seq![OperandWidth::Octaword, OperandWidth::Octaword, OperandWidth::Octaword],
        InstructionType::POLYF => seq![OperandWidth::Longword, OperandWidth::Word, OperandWidth::Byte],
        InstructionType::POLYD | InstructionType::POLYG => seq![OperandWidth::Quadword, OperandWidth::Word, OperandWidth::Byte],
        InstructionType::POLYH => seq![OperandWidth::Octaword, OperandWidth::Word, OperandWidth::Byte],
        InstructionType::SUBF2 => seq![OperandWidth::Longword, OperandWidth::Longword],
        InstructionType::SUBF3 => seq![OperandWidth::Longword, OperandWidth::Longword, OperandWidth::Longword],
        InstructionType::SUBD2 | InstructionType::SUBG2 => seq![OperandWidth::Quadword, OperandWidth::Quadword],
        InstructionType::SUBD3 | InstructionType::SUBG3 => seq![OperandWidth::Quadword, OperandWidth::Quadword, OperandWidth::Quadword],
        InstructionType::SUBH2 => seq![OperandWidth::Octaword, OperandWidth::Octaword],
        InstructionType::SUBH3 => seq![OperandWidth::Octaword, OperandWidth::Octaword, OperandWidth::Octaword],
        InstructionType::TSTF => seq![OperandWidth::Longword],
        InstructionType::TSTD | InstructionType::TSTG => seq![OperandWidth::Quadword],
        InstructionType::TSTH => seq![OperandWidth::Octaword],
        InstructionType::REI => Seq::<OperandWidth>::empty(),
        InstructionType::CHMK | InstructionType::CHME | InstructionType::CHMS | InstructionType::CHMU => seq![OperandWidth::Word],
        InstructionType::LDPCTX | InstructionType::SVPCTX => Seq::<OperandWidth>::empty(),
        InstructionType::MFPR | InstructionType::MTPR => seq![OperandWidth::Longword, OperandWidth::Longword],
    }
}

impl InstructionType {
    /// The access mode of every operand field, in order.
    pub fn field_modes(self) -> (r: Vec<FieldMode>)
        ensures
            r@ == spec_field_modes(self),
    {
        match self {
            InstructionType::ADAWI => vec![FieldMode::Read, FieldMode::Modify],
            InstructionType::ADDB2 | InstructionType::ADDW2 | InstructionType::ADDL2 => vec![FieldMode::Read, FieldMode::Modify],
            InstructionType::ADDB3 | InstructionType::ADDW3 | InstructionType::ADDL3 => vec![FieldMode::Read, FieldMode::Read, FieldMode::Write],
            InstructionType::ADWC => vec![FieldMode::Read, FieldMode::Modify],
            InstructionType::ASHL | InstructionType::ASHQ => vec![FieldMode::Read, FieldMode::Read, FieldMode::Write],
            InstructionType::BICB2 | InstructionType::BICW2 | InstructionType::BICL2 => vec![FieldMode::Read, FieldMode::Modify],
            InstructionType::BICB3 | InstructionType::BICW3 | InstructionType::BICL3 => vec![FieldMode::Read, FieldMode::Read, FieldMode::Write],
            InstructionType::BISB2 | InstructionType::BISW2 | InstructionType::BISL2 => vec![FieldMode::Read, FieldMode::Modify],
            InstructionType::BISB3 | InstructionType::BISW3 | InstructionType::BISL3 => vec![FieldMode::Read, FieldMode::Read, FieldMode::Write],
            InstructionType::BITB | InstructionType::BITW | InstructionType::BITL => vec![FieldMode::Read, FieldMode::Read],
            InstructionType::CLRB | InstructionType::CLRW | InstructionType::CLRL | InstructionType::CLRQ | InstructionType::CLRO => vec![FieldMode::Write],
            InstructionType::CMPB | InstructionType::CMPW | InstructionType::CMPL => vec![FieldMode::Read, FieldMode::Read],
            InstructionType::CVTBW | InstructionType::CVTBL | InstructionType::CVTWB | InstructionType::CVTWL | InstructionType::CVTLB | InstructionType::CVTLW => vec![FieldMode::Read, FieldMode::Write],
            InstructionType::DECB | InstructionType::DECW | InstructionType::DECL => vec![FieldMode::Modify],
            InstructionType::DIVB2 | InstructionType::DIVW2 | InstructionType::DIVL2 => vec![FieldMode::Read, FieldMode::Modify],
            InstructionType::DIVB3 | InstructionType::DIVW3 | InstructionType::DIVL3 => vec![FieldMode::Read, FieldMode::Read, FieldMode::Write],
            InstructionType::EDIV => vec![FieldMode::Read, FieldMode::Read, FieldMode::Write, FieldMode::Write],
            InstructionType::EMUL => vec![FieldMode::Read, FieldMode::Read, FieldMode::Read, FieldMode::Write],
            InstructionType::INCB | InstructionType::INCW | InstructionType::INCL => vec![FieldMode::Modify],
            InstructionType::MCOMB | InstructionType::MCOMW | InstructionType::MCOML => vec![FieldMode::Read, FieldMode::Write],
            InstructionType::MNEGB | InstructionType::MNEGW | InstructionType::MNEGL => vec![FieldMode::Read, FieldMode::Write],
            InstructionType::MOVB | InstructionType::MOVW | InstructionType::MOVL | InstructionType::MOVQ | InstructionType::MOVO => vec![FieldMode::Read, FieldMode::Write],
            InstructionType::MOVZBW | InstructionType::MOVZBL | InstructionType::MOVZWL => vec![FieldMode::Read, FieldMode::Write],
            InstructionType::MULB2 | InstructionType::MULW2 | InstructionType::MULL2 => vec![FieldMode::Read, FieldMode::Modify],
            InstructionType::MULB3 | InstructionType::MULW3 | InstructionType::MULL3 => vec![FieldMode::Read, FieldMode::Read, FieldMode::Write],
            InstructionType::PUSHL => vec![FieldMode::Read],
            InstructionType::ROTL => vec![FieldMode::Read, FieldMode::Read, FieldMode::Write],
            InstructionType::SBWC => vec![FieldMode::Read, FieldMode::Modify],
            InstructionType::SUBB2 | InstructionType::SUBW2 | InstructionType::SUBL2 => vec![FieldMode::Read, FieldMode::Modify],
            InstructionType::SUBB3 | InstructionType::SUBW3 | InstructionType::SUBL3 => vec![FieldMode::Read, FieldMode::Read, FieldMode::Write],
            InstructionType::TSTB | InstructionType::TSTW | InstructionType::TSTL => vec![FieldMode::Read],
            InstructionType::XORB2 | InstructionType::XORW2 | InstructionType::XORL2 => vec![FieldMode::Read, FieldMode::Modify],
            InstructionType::XORB3 | InstructionType::XORW3 | InstructionType::XORL3 => vec![FieldMode::Read, FieldMode::Read, FieldMode::Write],
            InstructionType::MOVAB | InstructionType::MOVAW | InstructionType::MOVAL | InstructionType::MOVAQ | InstructionType::MOVAO => vec![FieldMode::Address, FieldMode::Write],
            InstructionType::PUSHAB | InstructionType::PUSHAW | InstructionType::PUSHAL | InstructionType::PUSHAQ | InstructionType::PUSHAO => vec![FieldMode::Address],
            InstructionType::CMPV | InstructionType::CMPZV => vec![FieldMode::Read, FieldMode::Read, FieldMode::Bitfield, FieldMode::Read],
            InstructionType::EXTV | InstructionType::EXTZV => vec![FieldMode::Read, FieldMode::Read, FieldMode::Bitfield, FieldMode::Write],
            InstructionType::FFC | InstructionType::FFS => vec![FieldMode::Read, FieldMode::Read, FieldMode::Bitfield, FieldMode::Write],
            InstructionType::INSV => vec![FieldMode::Read, FieldMode::Read, FieldMode::Read, FieldMode::Bitfield],
            InstructionType::ACBB | InstructionType::ACBW | InstructionType::ACBL | InstructionType::ACBF | InstructionType::ACBD | InstructionType::ACBG | InstructionType::ACBH => vec![FieldMode::Read, FieldMode::Read, FieldMode::Modify, FieldMode::Data],
            InstructionType::AOBLEQ => vec![FieldMode::Read, FieldMode::Modify, FieldMode::Data],
            InstructionType::AOBLSS => vec![FieldMode::Read, FieldMode::Modify, FieldMode::Data],
            InstructionType::BGTR | InstructionType::BLEQ | InstructionType::BNEQ | InstructionType::BEQL | InstructionType::BGEQ | InstructionType::BLSS | InstructionType::BGTRU | InstructionType::BLEQU | InstructionType::BVC | InstructionType::BVS | InstructionType::BCC | InstructionType::BCS => vec![FieldMode::Data],
            InstructionType::BBS | InstructionType::BBC => vec![FieldMode::Read, FieldMode::Bitfield, FieldMode::Data],
            InstructionType::BBSS | InstructionType::BBCS | InstructionType::BBSC | InstructionType::BBCC => vec![FieldMode::Read, FieldMode::Bitfield, FieldMode::Data],
            InstructionType::BBSSI | InstructionType::BBCCI => vec![FieldMode::Read, FieldMode::Bitfield, FieldMode::Data],
            InstructionType::BLBS | InstructionType::BLBC => vec![FieldMode::Read, FieldMode::Data],
            InstructionType::BRB | InstructionType::BSBB => vec![FieldMode::Data],
            InstructionType::BRW | InstructionType::BSBW => vec![FieldMode::Data],
            InstructionType::CASEB | InstructionType::CASEW | InstructionType::CASEL => vec![FieldMode::Read, FieldMode::Read, FieldMode::Read, FieldMode::VariableLengthTable],
            InstructionType::JMP => vec![FieldMode::Address],
            InstructionType::JSB => vec![FieldMode::Address],
            InstructionType::RSB => Vec::new(),
            InstructionType::SOBGEQ => vec![FieldMode::Modify, FieldMode::Data],
            InstructionType::SOBGTR => vec![FieldMode::Modify, FieldMode::Data],
            InstructionType::CALLG => vec![FieldMode::Address, FieldMode::Address],
            InstructionType::CALLS => vec![FieldMode::Read, FieldMode::Address],
            InstructionType::RET => Vec::new(),
            InstructionType::BICPSW => vec![FieldMode::Read],
            InstructionType::BISPSW => vec![FieldMode::Read],
            InstructionType::BPT => Vec::new(),
            InstructionType::BUGW => vec![FieldMode::Data],
            InstructionType::BUGL => vec![FieldMode::Data],
            InstructionType::HALT => Vec::new(),
            InstructionType::INDEX => vec![FieldMode::Read, FieldMode::Read, FieldMode::Read, FieldMode::Read, FieldMode::Read, FieldMode::Write],
            InstructionType::MOVPSL => vec![FieldMode::Write],
            InstructionType::NOP => Vec::new(),
            InstructionType::POPR => vec![FieldMode::Read],
            InstructionType::PUSHR => vec![FieldMode::Read],
            InstructionType::XFC => Vec::new(),
            InstructionType::INSQHI => vec![FieldMode::Address, FieldMode::Address],
            InstructionType::INSQTI => vec![FieldMode::Address, FieldMode::Address],
            InstructionType::INSQUE => vec![FieldMode::Address, FieldMode::Address],
            InstructionType::REMQHI => vec![FieldMode::Address, FieldMode::Write],
            InstructionType::REMQTI => vec![FieldMode::Address, FieldMode::Write],
            InstructionType::REMQUE => vec![FieldMode::Address, FieldMode::Write],
            InstructionType::ADDF2 | InstructionType::ADDD2 | InstructionType::ADDG2 | InstructionType::ADDH2 => vec![FieldMode::Read, FieldMode::Modify],
            InstructionType::ADDF3 | InstructionType::ADDD3 | InstructionType::ADDG3 | InstructionType::ADDH3 => vec![FieldMode::Read, FieldMode::Read, FieldMode::Write],
            InstructionType::CMPF | InstructionType::CMPD | InstructionType::CMPG | InstructionType::CMPH => vec![FieldMode::Read, FieldMode::Read],
            InstructionType::CVTBF | InstructionType::CVTWF | InstructionType::CVTLF | InstructionType::CVTBD | InstructionType::CVTWD | InstructionType::CVTLD | InstructionType::CVTBG | InstructionType::CVTWG | InstructionType::CVTLG | InstructionType::CVTBH | InstructionType::CVTWH | InstructionType::CVTLH | InstructionType::CVTFB | InstructionType::CVTFW | InstructionType::CVTFL | InstructionType::CVTRFL | InstructionType::CVTDB | InstructionType::CVTDW | InstructionType::CVTDL | InstructionType::CVTRDL | InstructionType::CVTGB | InstructionType::CVTGW | InstructionType::CVTGL | InstructionType::CVTRGL | InstructionType::CVTHB | InstructionType::CVTHW | InstructionType::CVTHL | InstructionType::CVTFD | InstructionType::CVTFG | InstructionType::CVTFH | InstructionType::CVTDF | InstructionType::CVTDH | InstructionType::CVTGF | InstructionType::CVTGH | InstructionType::CVTHF | InstructionType::CVTHD | InstructionType::CVTHG | InstructionType::CVTRHL => vec![FieldMode::Read, FieldMode::Write],
            InstructionType::DIVF2 | InstructionType::DIVD2 | InstructionType::DIVG2 | InstructionType::DIVH2 => vec![FieldMode::Read, FieldMode::Modify],
            InstructionType::DIVF3 | InstructionType::DIVD3 | InstructionType::DIVG3 | InstructionType::DIVH3 => vec![FieldMode::Read, FieldMode::Read, FieldMode::Write],
            InstructionType::EMODF | InstructionType::EMODD | InstructionType::EMODG | InstructionType::EMODH => vec![FieldMode::Read, FieldMode::Read, FieldMode::Read, FieldMode::Write, FieldMode::Write],
            InstructionType::MNEGF | InstructionType::MNEGD | InstructionType::MNEGG | InstructionType::MNEGH => vec![FieldMode::Read, FieldMode::Write],
            InstructionType::MOVF | InstructionType::MOVD | InstructionType::MOVG | InstructionType::MOVH => vec![FieldMode::Read, FieldMode::Write],
            InstructionType::MULF2 | InstructionType::MULD2 | InstructionType::MULG2 | InstructionType::MULH2 => vec![FieldMode::Read, FieldMode::Modify],
            InstructionType::MULF3 | InstructionType::MULD3 | InstructionType::MULG3 | InstructionType::MULH3 => vec![FieldMode::Read, FieldMode::Read, FieldMode::Write],
            InstructionType::POLYF | InstructionType::POLYD | InstructionType::POLYG | InstructionType::POLYH => vec![FieldMode::Read, FieldMode::Read, FieldMode::Address],
            InstructionType::SUBF2 | InstructionType::SUBD2 | InstructionType::SUBG2 | InstructionType::SUBH2 => vec![FieldMode::Read, FieldMode::Modify],
            InstructionType::SUBF3 | InstructionType::SUBD3 | InstructionType::SUBG3 | InstructionType::SUBH3 => vec![FieldMode::Read, FieldMode::Read, FieldMode::Write],
            InstructionType::TSTF | InstructionType::TSTD | InstructionType::TSTG | InstructionType::TSTH => vec![FieldMode::Read],
            InstructionType::REI => Vec::new(),
            InstructionType::CHMK | InstructionType::CHME | InstructionType::CHMS | InstructionType::CHMU => vec![FieldMode::Read],
            InstructionType::LDPCTX => Vec::new(),
            InstructionType::SVPCTX => Vec::new(),
            InstructionType::MTPR => vec![FieldMode::Read, FieldMode::Read],
            InstructionType::MFPR => vec![FieldMode::Read, FieldMode::Write],
        }
    }

    /// The declared width of every operand field, in order.
    pub fn field_widths(self) -> (r: Vec<OperandWidth>)
        ensures
            r@ == spec_field_widths(self),
    {
        match self {
            InstructionType::ADAWI => vec![OperandWidth::Word, OperandWidth::Word],
            InstructionType::ADDB2 => vec![OperandWidth::Byte, OperandWidth::Byte],
            InstructionType::ADDB3 => vec![OperandWidth::Byte, OperandWidth::Byte, OperandWidth::Byte],
            InstructionType::ADDW2 => vec![OperandWidth::Word, OperandWidth::Word],
            InstructionType::ADDW3 => vec![OperandWidth::Word, OperandWidth::Word, OperandWidth::Word],
            InstructionType::ADDL2 => vec![OperandWidth::Longword, OperandWidth::Longword],
            InstructionType::ADDL3 => vec![OperandWidth::Longword, OperandWidth::Longword, OperandWidth::Longword],
            InstructionType::ADWC => vec![OperandWidth::Longword, OperandWidth::Longword],
            InstructionType::ASHL => vec![OperandWidth::Byte, OperandWidth::Longword, OperandWidth::Longword],
            InstructionType::ASHQ => vec![OperandWidth::Byte, OperandWidth::Quadword, OperandWidth::Quadword],
            InstructionType::BICB2 => vec![OperandWidth::Byte, OperandWidth::Byte],
            InstructionType::BICB3 => vec![OperandWidth::Byte, OperandWidth::Byte, OperandWidth::Byte],
            InstructionType::BICW2 => vec![OperandWidth::Word, OperandWidth::Word],
            InstructionType::BICW3 => vec![OperandWidth::Word, OperandWidth::Word, OperandWidth::Word],
            InstructionType::BICL2 => vec![OperandWidth::Longword, OperandWidth::Longword],
            InstructionType::BICL3 => vec![OperandWidth::Longword, OperandWidth::Longword, OperandWidth::Longword],
            InstructionType::BISB2 => vec![OperandWidth::Byte, OperandWidth::Byte],
            InstructionType::BISB3 => vec![OperandWidth::Byte, OperandWidth::Byte, OperandWidth::Byte],
            InstructionType::BISW2 => vec![OperandWidth::Word, OperandWidth::Word],
            InstructionType::BISW3 => vec![OperandWidth::Word, OperandWidth::Word, OperandWidth::Word],
            InstructionType::BISL2 => vec![OperandWidth::Longword, OperandWidth::Longword],
            InstructionType::BISL3 => vec![OperandWidth::Longword, OperandWidth::Longword, OperandWidth::Longword],
            InstructionType::BITB => vec![OperandWidth::Byte, OperandWidth::Byte],
            InstructionType::BITW => vec![OperandWidth::Word, OperandWidth::Word],
            InstructionType::BITL => vec![OperandWidth::Longword, OperandWidth::Longword],
            InstructionType::CLRB => vec![OperandWidth::Byte],
            InstructionType::CLRW => vec![OperandWidth::Word],
            InstructionType::CLRL => vec![OperandWidth::Longword],
            InstructionType::CLRQ => vec![OperandWidth::Quadword],
            InstructionType::CLRO => vec![OperandWidth::Octaword],
            InstructionType::CMPB => vec![OperandWidth::Byte, OperandWidth::Byte],
            InstructionType::CMPW => vec![OperandWidth::Word, OperandWidth::Word],
            InstructionType::CMPL => vec![OperandWidth::Longword, OperandWidth::Longword],
            InstructionType::CVTBW => vec![OperandWidth::Byte, OperandWidth::Word],
            InstructionType::CVTBL => vec![OperandWidth::Byte, OperandWidth::Longword],
            InstructionType::CVTWB => vec![OperandWidth::Word, OperandWidth::Byte],
            InstructionType::CVTWL => vec![OperandWidth::Word, OperandWidth::Longword],
            InstructionType::CVTLB => vec![OperandWidth::Longword, OperandWidth::Byte],
            InstructionType::CVTLW => vec![OperandWidth::Longword, OperandWidth::Word],
            InstructionType::DECB => vec![OperandWidth::Byte],
            InstructionType::DECW => vec![OperandWidth::Word],
            InstructionType::DECL => vec![OperandWidth::Longword],
            InstructionType::DIVB2 => vec![OperandWidth::Byte, OperandWidth::Byte],
            InstructionType::DIVB3 => vec![OperandWidth::Byte, OperandWidth::Byte, OperandWidth::Byte],
            InstructionType::DIVW2 => vec![OperandWidth::Word, OperandWidth::Word],
            InstructionType::DIVW3 => vec![OperandWidth::Word, OperandWidth::Word, OperandWidth::Word],
            InstructionType::DIVL2 => vec![OperandWidth::Longword, OperandWidth::Longword],
            InstructionType::DIVL3 => vec![OperandWidth::Longword, OperandWidth::Longword, OperandWidth::Longword],
            InstructionType::EDIV => vec![OperandWidth::Longword, OperandWidth::Quadword, OperandWidth::Longword, OperandWidth::Longword],
            InstructionType::EMUL => vec![OperandWidth::Longword, OperandWidth::Longword, OperandWidth::Longword, OperandWidth::Quadword],
            InstructionType::INCB => vec![OperandWidth::Byte],
            InstructionType::INCW => vec![OperandWidth::Word],
            InstructionType::INCL => vec![OperandWidth::Longword],
            InstructionType::MCOMB => vec![OperandWidth::Byte, OperandWidth::Byte],
            InstructionType::MCOMW => vec![OperandWidth::Word, OperandWidth::Word],
            InstructionType::MCOML => vec![OperandWidth::Longword, OperandWidth::Longword],
            InstructionType::MNEGB => vec![OperandWidth::Byte, OperandWidth::Byte],
            InstructionType::MNEGW => vec![OperandWidth::Word, OperandWidth::Word],
            InstructionType::MNEGL => vec![OperandWidth::Longword, OperandWidth::Longword],
            InstructionType::MOVB => vec![OperandWidth::Byte, OperandWidth::Byte],
            InstructionType::MOVW => vec![OperandWidth::Word, OperandWidth::Word],
            InstructionType::MOVL => vec![OperandWidth::Longword, OperandWidth::Longword],
            InstructionType::MOVQ => vec![OperandWidth::Quadword, OperandWidth::Quadword],
            InstructionType::MOVO => vec![OperandWidth::Octaword, OperandWidth::Octaword],
            InstructionType::MOVZBW => vec![OperandWidth::Byte, OperandWidth::Word],
            InstructionType::MOVZBL => vec![OperandWidth::Byte, OperandWidth::Longword],
            InstructionType::MOVZWL => vec![OperandWidth::Word, OperandWidth::Longword],
            InstructionType::MULB2 => vec![OperandWidth::Byte, OperandWidth::Byte],
            InstructionType::MULB3 => vec![OperandWidth::Byte, OperandWidth::Byte, OperandWidth::Byte],
            InstructionType::MULW2 => vec![OperandWidth::Word, OperandWidth::Word],
            InstructionType::MULW3 => vec![OperandWidth::Word, OperandWidth::Word, OperandWidth::Word],
            InstructionType::MULL2 => vec![OperandWidth::Longword, OperandWidth::Longword],
            InstructionType::MULL3 => vec![OperandWidth::Longword, OperandWidth::Longword, OperandWidth::Longword],
            InstructionType::PUSHL => vec![OperandWidth::Longword],
            InstructionType::ROTL => vec![OperandWidth::Byte, OperandWidth::Longword, OperandWidth::Longword],
            InstructionType::SBWC => vec![OperandWidth::Longword, OperandWidth::Longword],
            InstructionType::SUBB2 => vec![OperandWidth::Byte, OperandWidth::Byte],
            InstructionType::SUBB3 => vec![OperandWidth::Byte, OperandWidth::Byte, OperandWidth::Byte],
            InstructionType::SUBW2 => vec![OperandWidth::Word, OperandWidth::Word],
            InstructionType::SUBW3 => vec![OperandWidth::Word, OperandWidth::Word, OperandWidth::Word],
            InstructionType::SUBL2 => vec![OperandWidth::Longword, OperandWidth::Longword],
            InstructionType::SUBL3 => vec![OperandWidth::Longword, OperandWidth::Longword, OperandWidth::Longword],
            InstructionType::TSTB => vec![OperandWidth::Byte],
            InstructionType::TSTW => vec![OperandWidth::Word],
            InstructionType::TSTL => vec![OperandWidth::Longword],
            InstructionType::XORB2 => vec![OperandWidth::Byte, OperandWidth::Byte],
            InstructionType::XORB3 => vec![OperandWidth::Byte, OperandWidth::Byte, OperandWidth::Byte],
            InstructionType::XORW2 => vec![OperandWidth::Word, OperandWidth::Word],
            InstructionType::XORW3 => vec![OperandWidth::Word, OperandWidth::Word, OperandWidth::Word],
            InstructionType::XORL2 => vec![OperandWidth::Longword, OperandWidth::Longword],
            InstructionType::XORL3 => vec![OperandWidth::Longword, OperandWidth::Longword, OperandWidth::Longword],
            InstructionType::MOVAB => vec![OperandWidth::Byte, OperandWidth::Longword],
            InstructionType::MOVAW => vec![OperandWidth::Word, OperandWidth::Longword],
            InstructionType::MOVAL => vec![OperandWidth::Longword, OperandWidth::Longword],
            InstructionType::MOVAQ => vec![OperandWidth::Quadword, OperandWidth::Longword],
            InstructionType::MOVAO => vec![OperandWidth::Octaword, OperandWidth::Longword],
            InstructionType::PUSHAB => vec![OperandWidth::Byte],
            InstructionType::PUSHAW => vec![OperandWidth::Word],
            InstructionType::PUSHAL => vec![OperandWidth::Longword],
            InstructionType::PUSHAQ => vec![OperandWidth::Quadword],
            InstructionType::PUSHAO => vec![OperandWidth::Octaword],
            InstructionType::CMPV => vec![OperandWidth::Longword, OperandWidth::Byte, OperandWidth::Byte, OperandWidth::Longword],
            InstructionType::CMPZV => vec![OperandWidth::Longword, OperandWidth::Byte, OperandWidth::Byte, OperandWidth::Longword],
            InstructionType::EXTV => vec![OperandWidth::Longword, OperandWidth::Byte, OperandWidth::Byte, OperandWidth::Longword],
            InstructionType::EXTZV => vec![OperandWidth::Longword, OperandWidth::Byte, OperandWidth::Byte, OperandWidth::Longword],
            InstructionType::FFC => vec![OperandWidth::Longword, OperandWidth::Byte, OperandWidth::Byte, OperandWidth::Longword],
            InstructionType::FFS => vec![OperandWidth::Longword, OperandWidth::Byte, OperandWidth::Byte, OperandWidth::Longword],
            InstructionType::INSV => vec![OperandWidth::Longword, OperandWidth::Longword, OperandWidth::Byte, OperandWidth::Byte],
            InstructionType::ACBB => vec![OperandWidth::Byte, OperandWidth::Byte, OperandWidth::Byte, OperandWidth::Word],
            InstructionType::ACBW => vec![OperandWidth::Word, OperandWidth::Word, OperandWidth::Word, OperandWidth::Word],
            InstructionType::ACBL => vec![OperandWidth::Longword, OperandWidth::Longword, OperandWidth::Longword, OperandWidth::Word],
            InstructionType::ACBF => vec![OperandWidth::Longword, OperandWidth::Longword, OperandWidth::Longword, OperandWidth::Word],
            InstructionType::ACBD => vec![OperandWidth::Quadword, OperandWidth::Quadword, OperandWidth::Quadword, OperandWidth::Word],
            InstructionType::ACBG => vec![OperandWidth::Quadword, OperandWidth::Quadword, OperandWidth::Quadword, OperandWidth::Word],
            InstructionType::ACBH => vec![OperandWidth::Octaword, OperandWidth::Octaword, OperandWidth::Octaword, OperandWidth::Word],
            InstructionType::AOBLEQ => vec![OperandWidth::Longword, OperandWidth::Longword, OperandWidth::Byte],
            InstructionType::AOBLSS => vec![OperandWidth::Longword, OperandWidth::Longword, OperandWidth::Byte],
            InstructionType::BGTR | InstructionType::BLEQ | InstructionType::BNEQ | InstructionType::BEQL | InstructionType::BGEQ | InstructionType::BLSS | InstructionType::BGTRU | InstructionType::BLEQU | InstructionType::BVC | InstructionType::BVS | InstructionType::BCC | InstructionType::BCS => vec![OperandWidth::Byte],
            InstructionType::BBS => vec![OperandWidth::Longword, OperandWidth::Byte, OperandWidth::Byte],
            InstructionType::BBC => vec![OperandWidth::Longword, OperandWidth::Byte, OperandWidth::Byte],
            InstructionType::BBSS => vec![OperandWidth::Longword, OperandWidth::Byte, OperandWidth::Byte],
            InstructionType::BBCS => vec![OperandWidth::Longword, OperandWidth::Byte, OperandWidth::Byte],
            InstructionType::BBSC => vec![OperandWidth::Longword, OperandWidth::Byte, OperandWidth::Byte],
            InstructionType::BBCC => vec![OperandWidth::Longword, OperandWidth::Byte, OperandWidth::Byte],
            InstructionType::BBSSI => vec![OperandWidth::Longword, OperandWidth::Byte, OperandWidth::Byte],
            InstructionType::BBCCI => vec![OperandWidth::Longword, OperandWidth::Byte, OperandWidth::Byte],
            InstructionType::BLBS => vec![OperandWidth::Longword, OperandWidth::Byte],
            InstructionType::BLBC => vec![OperandWidth::Longword, OperandWidth::Byte],
            InstructionType::BRB => vec![OperandWidth::Byte],
            InstructionType::BRW => vec![OperandWidth::Word],
            InstructionType::BSBB => vec![OperandWidth::Byte],
            InstructionType::BSBW => vec![OperandWidth::Word],
            InstructionType::CASEB => vec![OperandWidth::Byte, OperandWidth::Byte, OperandWidth::Byte, OperandWidth::Word],
            InstructionType::CASEW => vec![OperandWidth::Word, OperandWidth::Word, OperandWidth::Word, OperandWidth::Word],
            InstructionType::CASEL => vec![OperandWidth::Longword, OperandWidth::Longword, OperandWidth::Longword, OperandWidth::Word],
            InstructionType::JMP => vec![OperandWidth::Byte],
            InstructionType::JSB => vec![OperandWidth::Byte],
            InstructionType::RSB => Vec::new(),
            InstructionType::SOBGEQ => vec![OperandWidth::Longword, OperandWidth::Byte],
            InstructionType::SOBGTR => vec![OperandWidth::Longword, OperandWidth::Byte],
            InstructionType::CALLG => vec![OperandWidth::Byte, OperandWidth::Byte],
            InstructionType::CALLS => vec![OperandWidth::Longword, OperandWidth::Byte],
            InstructionType::RET => Vec::new(),
            InstructionType::BICPSW => vec![OperandWidth::Word],
            InstructionType::BISPSW => vec![OperandWidth::Word],
            InstructionType::BPT => Vec::new(),
            InstructionType::BUGW => vec![OperandWidth::Word],
            InstructionType::BUGL => vec![OperandWidth::Longword],
            InstructionType::HALT => Vec::new(),
            InstructionType::INDEX => vec![OperandWidth::Longword, OperandWidth::Longword, OperandWidth::Longword, OperandWidth::Longword, OperandWidth::Longword, OperandWidth::Longword],
            InstructionType::MOVPSL => vec![OperandWidth::Longword],
            InstructionType::NOP => Vec::new(),
            InstructionType::POPR => vec![OperandWidth::Word],
            InstructionType::PUSHR => vec![OperandWidth::Word],
            InstructionType::XFC => Vec::new(),
            InstructionType::INSQHI => vec![OperandWidth::Byte, OperandWidth::Quadword],
            InstructionType::INSQTI => vec![OperandWidth::Byte, OperandWidth::Quadword],
            InstructionType::INSQUE => vec![OperandWidth::Byte, OperandWidth::Byte],
            InstructionType::REMQHI => vec![OperandWidth::Quadword, OperandWidth::Longword],
            InstructionType::REMQTI => vec![OperandWidth::Quadword, OperandWidth::Longword],
            InstructionType::REMQUE => vec![OperandWidth::Byte, OperandWidth::Longword],
            InstructionType::ADDF2 => vec![OperandWidth::Longword, OperandWidth::Longword],
            InstructionType::ADDF3 => vec![OperandWidth::Longword, OperandWidth::Longword, OperandWidth::Longword],
            InstructionType::ADDD2 => vec![OperandWidth::Quadword, OperandWidth::Quadword],
            InstructionType::ADDD3 => vec![OperandWidth::Quadword, OperandWidth::Quadword, OperandWidth::Quadword],
            InstructionType::ADDG2 => vec![OperandWidth::Quadword, OperandWidth::Quadword],
            InstructionType::ADDG3 => vec![OperandWidth::Quadword, OperandWidth::Quadword, OperandWidth::Quadword],
            InstructionType::ADDH2 => vec![OperandWidth::Octaword, OperandWidth::Octaword],
            InstructionType::ADDH3 => vec![OperandWidth::Octaword, OperandWidth::Octaword, OperandWidth::Octaword],
            InstructionType::CMPF => vec![OperandWidth::Longword, OperandWidth::Longword],
            InstructionType::CMPD => vec![OperandWidth::Quadword, OperandWidth::Quadword],
            InstructionType::CMPG => vec![OperandWidth::Quadword, OperandWidth::Quadword],
            InstructionType::CMPH => vec![OperandWidth::Octaword, OperandWidth::Octaword],
            InstructionType::CVTBF => vec![OperandWidth::Byte, OperandWidth::Longword],
            InstructionType::CVTWF => vec![OperandWidth::Word, OperandWidth::Longword],
            InstructionType::CVTLF => vec![OperandWidth::Longword, OperandWidth::Longword],
            InstructionType::CVTBD | InstructionType::CVTBG => vec![OperandWidth::Byte, OperandWidth::Quadword],
            InstructionType::CVTWD | InstructionType::CVTWG => vec![OperandWidth::Word, OperandWidth::Quadword],
            InstructionType::CVTLD | InstructionType::CVTLG => vec![OperandWidth::Longword, OperandWidth::Quadword],
            InstructionType::CVTBH => vec![OperandWidth::Byte, OperandWidth::Octaword],
            InstructionType::CVTWH => vec![OperandWidth::Word, OperandWidth::Quadword],
            InstructionType::CVTLH => vec![OperandWidth::Longword, OperandWidth::Octaword],
            InstructionType::CVTFB => vec![OperandWidth::Longword, OperandWidth::Byte],
            InstructionType::CVTFW => vec![OperandWidth::Longword, OperandWidth::Word],
            InstructionType::CVTFL | InstructionType::CVTRFL => vec![OperandWidth::Longword, OperandWidth::Longword],
            InstructionType::CVTDB | InstructionType::CVTGB => vec![OperandWidth::Quadword, OperandWidth::Byte],
            InstructionType::CVTDW | InstructionType::CVTGW => vec![OperandWidth::Quadword, OperandWidth::Word],
            InstructionType::CVTDL | InstructionType::CVTGL | InstructionType::CVTRDL | InstructionType::CVTRGL => vec![OperandWidth::Quadword, OperandWidth::Longword],
            InstructionType::CVTHB => vec![OperandWidth::Octaword, OperandWidth::Byte],
            InstructionType::CVTHW => vec![OperandWidth::Octaword, OperandWidth::Word],
            InstructionType::CVTHL | InstructionType::CVTRHL => vec![OperandWidth::Octaword, OperandWidth::Longword],
            InstructionType::CVTFD | InstructionType::CVTFG => vec![OperandWidth::Longword, OperandWidth::Quadword],
            InstructionType::CVTFH => vec![OperandWidth::Longword, OperandWidth::Octaword],
            InstructionType::CVTDF | InstructionType::CVTGF => vec![OperandWidth::Quadword, OperandWidth::Longword],
            InstructionType::CVTDH | InstructionType::CVTGH => vec![OperandWidth::Quadword, OperandWidth::Octaword],
            InstructionType::CVTHF => vec![OperandWidth::Octaword, OperandWidth::Longword],
            InstructionType::CVTHD | InstructionType::CVTHG => vec![OperandWidth::Octaword, OperandWidth::Longword],
            InstructionType::DIVF2 => vec![OperandWidth::Longword, OperandWidth::Longword],
            InstructionType::DIVF3 => vec![OperandWidth::Longword, OperandWidth::Longword, OperandWidth::Longword],
            InstructionType::DIVD2 | InstructionType::DIVG2 => vec![OperandWidth::Quadword, OperandWidth::Quadword],
            InstructionType::DIVD3 | InstructionType::DIVG3 => vec![OperandWidth::Quadword, OperandWidth::Quadword, OperandWidth::Quadword],
            InstructionType::DIVH2 => vec![OperandWidth::Octaword, OperandWidth::Octaword],
            InstructionType::DIVH3 => vec![OperandWidth::Octaword, OperandWidth::Octaword, OperandWidth::Octaword],
            InstructionType::EMODF => vec![OperandWidth::Longword, OperandWidth::Byte, OperandWidth::Longword, OperandWidth::Longword, OperandWidth::Longword],
            InstructionType::EMODD => vec![OperandWidth::Quadword, OperandWidth::Byte, OperandWidth::Quadword, OperandWidth::Longword, OperandWidth::Quadword],
            InstructionType::EMODG => vec![OperandWidth::Quadword, OperandWidth::Word, OperandWidth::Quadword, OperandWidth::Longword, OperandWidth::Quadword],
            InstructionType::EMODH => vec![OperandWidth::Octaword, OperandWidth::Byte, OperandWidth::Octaword, OperandWidth::Octaword, OperandWidth::Octaword],
            InstructionType::MNEGF => vec![OperandWidth::Longword, OperandWidth::Longword],
            InstructionType::MNEGD | InstructionType::MNEGG => vec![OperandWidth::Quadword, OperandWidth::Quadword],
            InstructionType::MNEGH => vec![OperandWidth::Octaword, OperandWidth::Octaword],
            InstructionType::MOVF => vec![OperandWidth::Longword, OperandWidth::Longword],
            InstructionType::MOVD | InstructionType::MOVG => vec![OperandWidth::Quadword, OperandWidth::Quadword],
            InstructionType::MOVH => vec![OperandWidth::Octaword, OperandWidth::Octaword],
            InstructionType::MULF2 => vec![OperandWidth::Longword, OperandWidth::Longword],
            InstructionType::MULF3 => vec![OperandWidth::Longword, OperandWidth::Longword, OperandWidth::Longword],
            InstructionType::MULD2 | InstructionType::MULG2 => vec![OperandWidth::Quadword, OperandWidth::Quadword],
            InstructionType::MULD3 | InstructionType::MULG3 => vec![OperandWidth::Quadword, OperandWidth::Quadword, OperandWidth::Quadword],
            InstructionType::MULH2 => vec![OperandWidth::Octaword, OperandWidth::Octaword],
            InstructionType::MULH3 => vec![OperandWidth::Octaword, OperandWidth::Octaword, OperandWidth::Octaword],
            InstructionType::POLYF => vec![OperandWidth::Longword, OperandWidth::Word, OperandWidth::Byte],
            InstructionType::POLYD | InstructionType::POLYG => vec![OperandWidth::Quadword, OperandWidth::Word, OperandWidth::Byte],
            InstructionType::POLYH => vec![OperandWidth::Octaword, OperandWidth::Word, OperandWidth::Byte],
            InstructionType::SUBF2 => vec![OperandWidth::Longword, OperandWidth::Longword],
            InstructionType::SUBF3 => vec![OperandWidth::Longword, OperandWidth::Longword, OperandWidth::Longword],
            InstructionType::SUBD2 | InstructionType::SUBG2 => vec![OperandWidth::Quadword, OperandWidth::Quadword],
            InstructionType::SUBD3 | InstructionType::SUBG3 => vec![OperandWidth::Quadword, OperandWidth::Quadword, OperandWidth::Quadword],
            InstructionType::SUBH2 => vec![OperandWidth::Octaword, OperandWidth::Octaword],
            InstructionType::SUBH3 => vec![OperandWidth::Octaword, OperandWidth::Octaword, OperandWidth::Octaword],
            InstructionType::TSTF => vec![OperandWidth::Longword],
            InstructionType::TSTD | InstructionType::TSTG => vec![OperandWidth::Quadword],
            InstructionType::TSTH => vec![OperandWidth::Octaword],
            InstructionType::REI => Vec::new(),
            InstructionType::CHMK | InstructionType::CHME | InstructionType::CHMS | InstructionType::CHMU => vec![OperandWidth::Word],
            InstructionType::LDPCTX | InstructionType::SVPCTX => Vec::new(),
            InstructionType::MFPR | InstructionType::MTPR => vec![OperandWidth::Longword, OperandWidth::Longword],
        }
    }

    /// How many operand fields the instruction declares.
    pub fn field_count(self) -> (r: u32)
        ensures
            r == spec_field_modes(self).len(),
    {
        proof {
            lemma_field_lists_equal_len(self);
        }
        let m = self.field_modes();
        m.len() as u32
    }
}

/// For every defined opcode the per-field mode list and the width list are
/// parallel: they have one entry per operand field and the same length,
/// never more than six.
pub proof fn lemma_field_lists_equal_len(i: InstructionType)
    ensures
        spec_field_modes(i).len() == spec_field_widths(i).len(),
        spec_field_modes(i).len() <= 6,
{
}

impl InstructionType {
    /// Read an instruction identifier from the stream: one byte, or two when
    /// the first is one of the extension prefixes 0xFD, 0xFE and 0xFF.
    /// Returns `None` when the stream is exhausted or the opcode is not in
    /// the table.
    pub fn from_instrid(bytes: &mut ByteStream) -> (r: Option<InstructionType>)
        ensures
            ({
                let (sr, n) = spec_from_instrid(old(bytes)@);
                r == sr && final(bytes)@ == old(bytes)@.skip(n)
            }),
    {
        let b = match bytes.next() {
            Some(b) => b,
            None => {
                proof {
                    assert(old(bytes)@.skip(0) =~= old(bytes)@);
                }
                return None;
            },
        };
        match b {
            0xFD | 0xFE | 0xFF => {
                match bytes.next() {
                    Some(c) => InstructionType::from_opcode((b as u16) + (c as u16) * 0x100),
                    None => None,
                }
            },
            _ => InstructionType::from_opcode(b as u16),
        }
    }
}

/// What reading an instruction identifier from the byte sequence `s` yields,
/// and how many bytes it consumes: one byte, or two combined little-endian
/// when the first byte is an extension prefix, looked up in the opcode
/// table.
pub open spec fn spec_from_instrid(s: Seq<u8>) -> (Option<InstructionType>, int) {
    if s.len() == 0 {
        (None::<InstructionType>, 0)
    } else if s[0] == 0xFD || s[0] == 0xFE || s[0] == 0xFF {
        if s.len() == 1 {
            (None::<InstructionType>, 1)
        } else {
            (spec_from_opcode(le16(s) as u16), 2)
        }
    } else {
        (spec_from_opcode(s[0] as u16), 1)
    }
}

} // verus!
