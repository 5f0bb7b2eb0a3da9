//! Operand addressing modes and the single-operand decoder.
//!
//! A VAX operand starts with one header byte `h`. If the top two bits of `h`
//! are zero the operand is a six-bit literal; otherwise the high nibble
//! selects the addressing mode and the low nibble names a register. Some
//! modes pull further inline bytes whose count depends on the operand width
//! the instruction declared for that field.

use vstd::prelude::*;

use crate::RegID;
use crate::stream::ByteStream;
use crate::stream::get_u16_from_stream;
use crate::stream::get_u32_from_stream;
use crate::stream::get_u64_from_stream;
use crate::stream::get_u128_from_stream;
use crate::stream::le16;
use crate::stream::le32;
use crate::stream::le64;
use crate::stream::le128;
use vstd::pervasive::unreached;

verus! {

/// The width, in bytes, that an instruction field declares for its operand.
#[derive(Copy, Clone, Debug, PartialEq, Eq, Structural)]
pub enum OperandWidth {
    Byte,
    Word,
    Longword,
    Quadword,
    Octaword,
}

/// A decoded operand: one of the sixteen primary addressing modes, or an
/// inline data value pulled for a `Data` field. `Indexed` wraps the inner
/// base operand; the recursion depth is architecturally one.
#[derive(Debug, PartialEq, Eq)]
pub enum OperandMode {
    Literal(u8),
    Register(RegID),
    RegisterDeferred(RegID),
    AutoDecrement(RegID),
    AutoIncrement(RegID),
    AutoIncrementDeferred(RegID),
    ByteDisplacement(RegID, i8),
    ByteDisplacementDeferred(RegID, i8),
    WordDisplacement(RegID, i16),
    WordDisplacementDeferred(RegID, i16),
    LongwordDisplacement(RegID, i32),
    LongwordDisplacementDeferred(RegID, i32),
    Absolute(u32),
    Indexed(Box<OperandMode>),
    Immediate8(u8),
    Immediate16(u16),
    Immediate32(u32),
    Immediate64(u64),
    Immediate128(u128),
    DataByte(u8),
    DataWord(u16),
    DataLong(u32),
}

/// Why a single operand failed to decode.
#[derive(Copy, Clone, Debug, PartialEq, Eq, Structural)]
pub enum OperandParseError {
    OutOfBytes,
    InvalidMode,
}

/// The access class an instruction field demands of its operand.
#[derive(Copy, Clone, Debug, PartialEq, Eq, Structural)]
pub enum FieldMode {
    Read,
    Modify,
    Write,
    Address,
    Bitfield,
    Data,
    VariableLengthTable,
}

/// How many inline bytes an operand of this width occupies.
pub open spec fn width_bytes(w: OperandWidth) -> int {
    match w {
        OperandWidth::Byte => 1,
        OperandWidth::Word => 2,
        OperandWidth::Longword => 4,
        OperandWidth::Quadword => 8,
        OperandWidth::Octaword => 16,
    }
}

/// The value `v` (a byte) reinterpreted as a signed two's-complement byte.
pub open spec fn signed8(v: int) -> int {
    if v < 0x80 {
        v
    } else {
        v - 0x100
    }
}

/// The value `v` (sixteen bits) reinterpreted as a signed two's-complement
/// word.
pub open spec fn signed16(v: int) -> int {
    if v < 0x8000 {
        v
    } else {
        v - 0x1_0000
    }
}

/// The value `v` (thirty-two bits) reinterpreted as a signed two's-complement
/// longword.
pub open spec fn signed32(v: int) -> int {
    if v < 0x8000_0000 {
        v
    } else {
        v - 0x1_0000_0000
    }
}

/// The immediate operand that `width` declares, taken from the bytes that
/// follow the header.
pub open spec fn spec_immediate(s: Seq<u8>, width: OperandWidth) -> OperandMode {
    match width {
        OperandWidth::Byte => OperandMode::Immediate8(s[0]),
        OperandWidth::Word => OperandMode::Immediate16(le16(s) as u16),
        OperandWidth::Longword => OperandMode::Immediate32(le32(s) as u32),
        OperandWidth::Quadword => OperandMode::Immediate64(le64(s) as u64),
        OperandWidth::Octaword => OperandMode::Immediate128(le128(s) as u128),
    }
}

/// Whether an operand may serve as the base of an indexed operand. Literal,
/// register, the autoincrement, autoincrement-deferred and autodecrement
/// forms, immediates, inline data and a further indexed operand are all
/// forbidden; the deferred and displacement forms and an absolute address
/// remain.
pub open spec fn spec_is_valid_indexed(m: OperandMode) -> bool {
    match m {
        OperandMode::Literal(_) => false,
        OperandMode::Register(_) => false,
        OperandMode::AutoDecrement(_) => false,
        OperandMode::AutoIncrement(_) => false,
        OperandMode::AutoIncrementDeferred(_) => false,
        OperandMode::Indexed(_) => false,
        OperandMode::Immediate8(_) => false,
        OperandMode::Immediate16(_) => false,
        OperandMode::Immediate32(_) => false,
        OperandMode::Immediate64(_) => false,
        OperandMode::Immediate128(_) => false,
        OperandMode::DataByte(_) => false,
        OperandMode::DataWord(_) => false,
        OperandMode::DataLong(_) => false,
        _ => true,
    }
}

/// Whether an operand satisfies the access class of the field it was decoded
/// for. `Data` and `VariableLengthTable` fields never reach this check.
pub open spec fn spec_is_valid_in_fieldmode(m: OperandMode, mode: FieldMode) -> bool {
    match mode {
        FieldMode::Read => true,
        FieldMode::Write | FieldMode::Modify => !(m matches OperandMode::Literal(_)
            || m matches OperandMode::Immediate8(_) || m matches OperandMode::Immediate16(_)
            || m matches OperandMode::Immediate32(_) || m matches OperandMode::Immediate64(_)
            || m matches OperandMode::Immediate128(_)),
        FieldMode::Address => !(m matches OperandMode::Literal(_)
            || m matches OperandMode::Register(_)),
        FieldMode::Bitfield => !(m matches OperandMode::Literal(_)),
        FieldMode::Data | FieldMode::VariableLengthTable => false,
    }
}

/// What decoding one operand from the byte sequence `s` yields, and how many
/// bytes it consumes. This is the defining description of the operand
/// encoding: the header byte picks the mode, and the mode determines which
/// inline bytes follow. A pull that runs out of bytes drains the stream.
pub open spec fn spec_read_operand(s: Seq<u8>, width: OperandWidth, allow_indexed: bool) -> (Result<
    OperandMode,
    OperandParseError,
>, int)
    decreases (if allow_indexed { 1int } else { 0int }),
{
    if s.len() == 0 {
        (Err(OperandParseError::OutOfBytes), 0)
    } else {
        let h = s[0] as int;
        if h / 0x40 == 0 {
            (Ok(OperandMode::Literal((h % 0x40) as u8)), 1)
        } else {
            let mode = h / 16;
            let reg = RegID((h % 16) as u8);
            let rest = s.skip(1);
            if mode == 4 {
                if !allow_indexed {
                    (Err(OperandParseError::InvalidMode), 1)
                } else {
                    let (inner, n) = spec_read_operand(rest, width, false);
                    match inner {
                        Err(e) => (Err(e), 1 + n),
                        Ok(op) => if spec_is_valid_indexed(op) {
                            (Ok(OperandMode::Indexed(Box::new(op))), 1 + n)
                        } else {
                            (Err(OperandParseError::InvalidMode), 1 + n)
                        },
                    }
                }
            } else if mode == 5 {
                (Ok(OperandMode::Register(reg)), 1)
            } else if mode == 6 {
                (Ok(OperandMode::RegisterDeferred(reg)), 1)
            } else if mode == 7 {
                (Ok(OperandMode::AutoDecrement(reg)), 1)
            } else if mode == 8 {
                if h % 16 != 15 {
                    (Ok(OperandMode::AutoIncrement(reg)), 1)
                } else if rest.len() >= width_bytes(width) {
                    (Ok(spec_immediate(rest, width)), 1 + width_bytes(width))
                } else {
                    (Err(OperandParseError::OutOfBytes), s.len() as int)
                }
            } else if mode == 9 {
                if h % 16 != 15 {
                    (Ok(OperandMode::AutoIncrementDeferred(reg)), 1)
                } else if rest.len() >= 4 {
                    (Ok(OperandMode::Absolute(le32(rest) as u32)), 5)
                } else {
                    (Err(OperandParseError::OutOfBytes), s.len() as int)
                }
            } else if mode == 10 || mode == 13 {
                if rest.len() >= 1 {
                    let d = signed8(rest[0] as int) as i8;
                    if mode == 10 {
                        (Ok(OperandMode::ByteDisplacement(reg, d)), 2)
                    } else {
                        (Ok(OperandMode::ByteDisplacementDeferred(reg, d)), 2)
                    }
                } else {
                    (Err(OperandParseError::OutOfBytes), s.len() as int)
                }
            } else if mode == 11 || mode == 14 {
                if rest.len() >= 2 {
                    let d = signed16(le16(rest)) as i16;
                    if mode == 11 {
                        (Ok(OperandMode::WordDisplacement(reg, d)), 3)
                    } else {
                        (Ok(OperandMode::WordDisplacementDeferred(reg, d)), 3)
                    }
                } else {
                    (Err(OperandParseError::OutOfBytes), s.len() as int)
                }
            } else {
                // modes 12 and 15: longword displacement, plain and deferred
                if rest.len() >= 4 {
                    let d = signed32(le32(rest)) as i32;
                    if mode == 12 {
                        (Ok(OperandMode::LongwordDisplacement(reg, d)), 5)
                    } else {
                        (Ok(OperandMode::LongwordDisplacementDeferred(reg, d)), 5)
                    }
                } else {
                    (Err(OperandParseError::OutOfBytes), s.len() as int)
                }
            }
        }
    }
}

/// A label that distinguishes the variants of `OperandMode` and nothing
/// more: two operands carry the same label exactly when they were built from
/// the same addressing mode.
pub open spec fn operand_tag(m: OperandMode) -> int {
    match m {
        OperandMode::Literal(_) => 0,
        OperandMode::Register(_) => 1,
        OperandMode::RegisterDeferred(_) => 2,
        OperandMode::AutoDecrement(_) => 3,
        OperandMode::AutoIncrement(_) => 4,
        OperandMode::AutoIncrementDeferred(_) => 5,
        OperandMode::ByteDisplacement(_, _) => 6,
        OperandMode::ByteDisplacementDeferred(_, _) => 7,
        OperandMode::WordDisplacement(_, _) => 8,
        OperandMode::WordDisplacementDeferred(_, _) => 9,
        OperandMode::LongwordDisplacement(_, _) => 10,
        OperandMode::LongwordDisplacementDeferred(_, _) => 11,
        OperandMode::Absolute(_) => 12,
        OperandMode::Indexed(_) => 13,
        OperandMode::Immediate8(_) => 14,
        OperandMode::Immediate16(_) => 15,
        OperandMode::Immediate32(_) => 16,
        OperandMode::Immediate64(_) => 17,
        OperandMode::Immediate128(_) => 18,
        OperandMode::DataByte(_) => 19,
        OperandMode::DataWord(_) => 20,
        OperandMode::DataLong(_) => 21,
    }
}

/// Decoding is deterministic in the header byte: for a fixed declared width,
/// two streams that begin with the same byte either both name the same
/// addressing mode or fail; whenever both succeed, the operands carry the
/// same tag. Only the payload may differ, as it comes from the bytes that
/// follow.
pub proof fn lemma_operand_tag_determined(
    s1: Seq<u8>,
    s2: Seq<u8>,
    width: OperandWidth,
    allow_indexed: bool,
)
    requires
        s1.len() > 0,
        s2.len() > 0,
        s1[0] == s2[0],
    ensures
        ({
            let (r1, _) = spec_read_operand(s1, width, allow_indexed);
            let (r2, _) = spec_read_operand(s2, width, allow_indexed);
            r1 matches Ok(op1) ==> r2 matches Ok(op2) ==> operand_tag(op1) == operand_tag(op2)
        }),
{
    let h = s1[0] as int;
    if h / 0x40 != 0 && h / 16 == 4 && allow_indexed {
        let (i1, _) = spec_read_operand(s1.skip(1), width, false);
        let (i2, _) = spec_read_operand(s2.skip(1), width, false);
        assert(spec_read_operand(s1, width, allow_indexed).0 matches Ok(op) ==> op matches
            OperandMode::Indexed(_));
        assert(spec_read_operand(s2, width, allow_indexed).0 matches Ok(op) ==> op matches
            OperandMode::Indexed(_));
    }
}

/// A byte reinterpreted as a signed two's-complement value.
fn to_signed8(v: u8) -> (r: i8)
    ensures
        r as int == signed8(v as int),
{
    if v < 0x80 {
        v as i8
    } else {
        ((v as i16) - 0x100) as i8
    }
}

/// Sixteen bits reinterpreted as a signed two's-complement value.
fn to_signed16(v: u16) -> (r: i16)
    ensures
        r as int == signed16(v as int),
{
    if v < 0x8000 {
        v as i16
    } else {
        ((v as i32) - 0x1_0000) as i16
    }
}

/// Thirty-two bits reinterpreted as a signed two's-complement value.
fn to_signed32(v: u32) -> (r: i32)
    ensures
        r as int == signed32(v as int),
{
    if v < 0x8000_0000 {
        v as i32
    } else {
        ((v as i64) - 0x1_0000_0000) as i32
    }
}

impl OperandMode {
    /// Whether this operand may serve as the base of an indexed operand.
    pub fn is_valid_indexed(&self) -> (r: bool)
        ensures
            r == spec_is_valid_indexed(*self),
    {
        match self {
            OperandMode::Literal(_) | OperandMode::Register(_) | OperandMode::AutoDecrement(_)
            | OperandMode::AutoIncrement(_) | OperandMode::AutoIncrementDeferred(_)
            | OperandMode::Indexed(_) | OperandMode::Immediate8(_) | OperandMode::Immediate16(_)
            | OperandMode::Immediate32(_) | OperandMode::Immediate64(_)
            | OperandMode::Immediate128(_) | OperandMode::DataByte(_)
            | OperandMode::DataWord(_) | OperandMode::DataLong(_) => false,
            _ => true,
        }
    }

    /// Whether this operand satisfies the access class `mode`. Inline-data
    /// fields never decode through this path, so `Data` and
    /// `VariableLengthTable` are excluded.
    pub fn is_valid_in_fieldmode(&self, mode: FieldMode) -> (r: bool)
        requires
            mode != FieldMode::Data,
            mode != FieldMode::VariableLengthTable,
        ensures
            r == spec_is_valid_in_fieldmode(*self, mode),
    {
        match mode {
            FieldMode::Read => true,
            FieldMode::Write | FieldMode::Modify => match self {
                OperandMode::Literal(_) | OperandMode::Immediate8(_)
                | OperandMode::Immediate16(_) | OperandMode::Immediate32(_)
                | OperandMode::Immediate64(_) | OperandMode::Immediate128(_) => false,
                _ => true,
            },
            FieldMode::Address => match self {
                OperandMode::Literal(_) | OperandMode::Register(_) => false,
                _ => true,
            },
            FieldMode::Bitfield => match self {
                OperandMode::Literal(_) => false,
                _ => true,
            },
            FieldMode::Data | FieldMode::VariableLengthTable => unreached(),
        }
    }

    /// Decode exactly one operand from the stream, given the width the field
    /// declares and whether an indexed operand is permitted here.
    pub fn read_operand(bytes: &mut ByteStream, width: OperandWidth, allow_indexed: bool) -> (r:
        Result<OperandMode, OperandParseError>)
        ensures
            ({
                let (sr, n) = spec_read_operand(old(bytes)@, width, allow_indexed);
                r == sr && final(bytes)@ == old(bytes)@.skip(n)
            }),
        decreases (if allow_indexed { 1int } else { 0int }),
    {
        let ghost s = bytes@;
        let head = match bytes.next() {
            Some(h) => h,
            None => {
                proof {
                    assert(s.skip(0) =~= s);
                }
                return Err(OperandParseError::OutOfBytes);
            },
        };
        proof {
            assert((head & 0xC0) >> 6 == head as int / 0x40 && head & 0x3F == (head as int % 0x40)
                as u8 && (head & 0xF0) >> 4 == head as int / 16 && (head & 0x0F) == (head as int
                % 16) as u8) by (bit_vector);
        }
        if (head & 0xC0) >> 6 == 0 {
            return Ok(OperandMode::Literal(head & 0x3F));
        }
        let optype = (head & 0xF0) >> 4;
        let field = head & 0x0F;
        let reg = RegID(field);

        match optype {
            4 => {
                if !allow_indexed {
                    return Err(OperandParseError::InvalidMode);
                }
                let submode = OperandMode::read_operand(bytes, width, false);
                match submode {
                    Err(v) => Err(v),
                    Ok(op) => if op.is_valid_indexed() {
                        Ok(OperandMode::Indexed(Box::new(op)))
                    } else {
                        Err(OperandParseError::InvalidMode)
                    },
                }
            },
            5 => Ok(OperandMode::Register(reg)),
            6 => Ok(OperandMode::RegisterDeferred(reg)),
            7 => Ok(OperandMode::AutoDecrement(reg)),
            8 => {
                if field != 0xF {
                    Ok(OperandMode::AutoIncrement(reg))
                } else {
                    match width {
                        OperandWidth::Byte => match bytes.next() {
                            Some(v) => Ok(OperandMode::Immediate8(v)),
                            None => Err(OperandParseError::OutOfBytes),
                        },
                        OperandWidth::Word => match get_u16_from_stream(bytes) {
                            Some(v) => Ok(OperandMode::Immediate16(v)),
                            None => Err(OperandParseError::OutOfBytes),
                        },
                        OperandWidth::Longword => match get_u32_from_stream(bytes) {
                            Some(v) => Ok(OperandMode::Immediate32(v)),
                            None => Err(OperandParseError::OutOfBytes),
                        },
                        OperandWidth::Quadword => match get_u64_from_stream(bytes) {
                            Some(v) => Ok(OperandMode::Immediate64(v)),
                            None => Err(OperandParseError::OutOfBytes),
                        },
                        OperandWidth::Octaword => match get_u128_from_stream(bytes) {
                            Some(v) => Ok(OperandMode::Immediate128(v)),
                            None => Err(OperandParseError::OutOfBytes),
                        },
                    }
                }
            },
            9 => {
                if field != 0xF {
                    Ok(OperandMode::AutoIncrementDeferred(reg))
                } else {
                    match get_u32_from_stream(bytes) {
                        Some(v) => Ok(OperandMode::Absolute(v)),
                        None => Err(OperandParseError::OutOfBytes),
                    }
                }
            },
            10 => match bytes.next() {
                Some(v) => Ok(OperandMode::ByteDisplacement(reg, to_signed8(v))),
                None => Err(OperandParseError::OutOfBytes),
            },
            11 => match get_u16_from_stream(bytes) {
                Some(v) => Ok(OperandMode::WordDisplacement(reg, to_signed16(v))),
                None => Err(OperandParseError::OutOfBytes),
            },
            12 => match get_u32_from_stream(bytes) {
                Some(v) => Ok(OperandMode::LongwordDisplacement(reg, to_signed32(v))),
                None => Err(OperandParseError::OutOfBytes),
            },
            13 => match bytes.next() {
                Some(v) => Ok(OperandMode::ByteDisplacementDeferred(reg, to_signed8(v))),
                None => Err(OperandParseError::OutOfBytes),
            },
            14 => match get_u16_from_stream(bytes) {
                Some(v) => Ok(OperandMode::WordDisplacementDeferred(reg, to_signed16(v))),
                None => Err(OperandParseError::OutOfBytes),
            },
            15 => match get_u32_from_stream(bytes) {
                Some(v) => Ok(OperandMode::LongwordDisplacementDeferred(reg, to_signed32(v))),
                None => Err(OperandParseError::OutOfBytes),
            },
            _ => unreached(),
        }
    }
}

} // verus!
