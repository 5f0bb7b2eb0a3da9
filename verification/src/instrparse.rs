//! Decoding a whole instruction: the opcode, then a pull-style sequence of
//! its operands.
//!
//! The operand sequence is finite and single-pass: each pull decodes one
//! field of the instruction against the mode and width the opcode table
//! declares for it, yielding either the operand or the error that position
//! produced. A `VariableLengthTable` field terminates the sequence; the
//! caller keeps the byte cursor and reads the table itself.

use vstd::prelude::*;

use crate::instrs::FieldMode;
use crate::instrs::OperandMode;
use crate::instrs::OperandParseError;
use crate::instrs::OperandWidth;
use crate::instrs::spec_is_valid_in_fieldmode;
use crate::instrs::spec_read_operand;
use crate::instrtypes::InstructionType;
use crate::instrtypes::lemma_field_lists_equal_len;
use crate::instrtypes::spec_field_modes;
use crate::instrtypes::spec_field_widths;
use crate::instrtypes::spec_from_instrid;
use crate::stream::ByteStream;
use crate::stream::get_u16_from_stream;
use crate::stream::get_u32_from_stream;
use crate::stream::le16;
use crate::stream::le32;

verus! {

/// The index value that marks an exhausted operand sequence.
pub const OPERANDS_DONE: u8 = 255;

/// What pulling one operand for a field of mode `m` and width `w` from the
/// byte sequence `s` yields, and how many bytes it consumes. A `Data` field
/// takes its bytes inline; every other mode decodes an operand header and
/// then checks the operand against the field's access class. No defined
/// instruction declares a quadword or octaword `Data` field; such a request
/// surfaces as an invalid mode.
pub open spec fn spec_operand_step(m: FieldMode, w: OperandWidth, s: Seq<u8>) -> (Result<
    OperandMode,
    OperandParseError,
>, int) {
    if m == FieldMode::Data {
        if w == OperandWidth::Byte {
            if s.len() >= 1 {
                (Ok(OperandMode::DataByte(s[0])), 1)
            } else {
                (Err(OperandParseError::OutOfBytes), 0)
            }
        } else if w == OperandWidth::Word {
            if s.len() >= 2 {
                (Ok(OperandMode::DataWord(le16(s) as u16)), 2)
            } else {
                (Err(OperandParseError::OutOfBytes), s.len() as int)
            }
        } else if w == OperandWidth::Longword {
            if s.len() >= 4 {
                (Ok(OperandMode::DataLong(le32(s) as u32)), 4)
            } else {
                (Err(OperandParseError::OutOfBytes), s.len() as int)
            }
        } else {
            (Err(OperandParseError::InvalidMode), 0)
        }
    } else {
        let (res, n) = spec_read_operand(s, w, true);
        match res {
            Ok(op) => if spec_is_valid_in_fieldmode(op, m) {
                (Ok(op), n)
            } else {
                (Err(OperandParseError::InvalidMode), n)
            },
            Err(e) => (Err(e), n),
        }
    }
}

/// The lazy sequence of one instruction's operands. Each call of `next`
/// decodes the next field; the sequence ends after the last field or at a
/// `VariableLengthTable` marker, after which `destructure` hands the byte
/// cursor back.
pub struct OperandIter {
    field_id: u8,
    fm: Vec<FieldMode>,
    fw: Vec<OperandWidth>,
    bytes: ByteStream,
}

impl OperandIter {
    /// The sequence is well formed: the mode and width lists are parallel.
    /// `from_instr` establishes this and every method keeps it.
    pub closed spec fn wf(&self) -> bool {
        &&& self.fm@.len() == self.fw@.len()
        &&& self.fm@.len() <= 6
    }

    /// The access mode of each field still governed by this sequence.
    pub closed spec fn modes(&self) -> Seq<FieldMode> {
        self.fm@
    }

    /// The declared width of each field.
    pub closed spec fn widths(&self) -> Seq<OperandWidth> {
        self.fw@
    }

    /// The position of the next field to decode; `OPERANDS_DONE` once the
    /// sequence has ended.
    pub closed spec fn index(&self) -> int {
        self.field_id as int
    }

    /// The bytes the sequence has not consumed yet.
    pub closed spec fn stream(&self) -> Seq<u8> {
        self.bytes@
    }

    /// The operand sequence of `inst`, drawing its bytes from `bytes`.
    pub fn from_instr(inst: InstructionType, bytes: ByteStream) -> (it: OperandIter)
        ensures
            it.wf(),
            it.modes() == spec_field_modes(inst),
            it.widths() == spec_field_widths(inst),
            it.index() == 0,
            it.stream() == bytes@,
    {
        proof {
            lemma_field_lists_equal_len(inst);
        }
        OperandIter { field_id: 0, fm: inst.field_modes(), fw: inst.field_widths(), bytes }
    }

    /// Consume the sequence, returning the byte cursor it drew from and the
    /// field position it was on.
    pub fn destructure(self) -> (r: (ByteStream, u8))
        ensures
            r.0@ == self.stream(),
            r.1 == self.index(),
    {
        (self.bytes, self.field_id)
    }

    /// Whether the sequence has ended.
    pub fn is_done(&self) -> (r: bool)
        ensures
            r == (self.index() == OPERANDS_DONE),
    {
        self.field_id == OPERANDS_DONE
    }

    /// End the sequence: every further `next` returns `None`.
    pub fn set_done(&mut self)
        requires
            old(self).wf(),
        ensures
            final(self).wf(),
            final(self).modes() == old(self).modes(),
            final(self).widths() == old(self).widths(),
            final(self).stream() == old(self).stream(),
            final(self).index() == OPERANDS_DONE,
    {
        self.field_id = OPERANDS_DONE;
    }

    /// Decode the operand of the next field. Yields `None` once every field
    /// is decoded or a `VariableLengthTable` marker is reached; otherwise
    /// yields the decoded operand, or the error this field produced, and
    /// moves past the bytes it consumed.
    pub fn next(&mut self) -> (r: Option<Result<OperandMode, OperandParseError>>)
        requires
            old(self).wf(),
        ensures
            final(self).wf(),
            final(self).modes() == old(self).modes(),
            final(self).widths() == old(self).widths(),
            ({
                let idx = old(self).index();
                let s = old(self).stream();
                if idx == OPERANDS_DONE || idx >= old(self).modes().len() {
                    &&& r is None
                    &&& final(self).index() == OPERANDS_DONE
                    &&& final(self).stream() == s
                } else if old(self).modes()[idx] == FieldMode::VariableLengthTable {
                    &&& r is None
                    &&& final(self).index() == idx + 1
                    &&& final(self).stream() == s
                } else {
                    let (res, n) = spec_operand_step(
                        old(self).modes()[idx],
                        old(self).widths()[idx],
                        s,
                    );
                    &&& r == Some(res)
                    &&& final(self).index() == idx + 1
                    &&& final(self).stream() == s.skip(n)
                }
            }),
    {
        if self.field_id == OPERANDS_DONE {
            return None;
        }
        let curfield = self.field_id as usize;
        if curfield >= self.fm.len() {
            self.field_id = OPERANDS_DONE;
            return None;
        }

        let curfm = self.fm[curfield];
        let curfw = self.fw[curfield];
        self.field_id = self.field_id + 1;

        match curfm {
            FieldMode::Data => {
                match curfw {
                    OperandWidth::Byte => {
                        proof {
                            assert(self.bytes@.skip(0) =~= self.bytes@);
                        }
                        match self.bytes.next() {
                            Some(next) => Some(Ok(OperandMode::DataByte(next))),
                            None => Some(Err(OperandParseError::OutOfBytes)),
                        }
                    },
                    OperandWidth::Word => {
                        let ghost s = self.bytes@;
                        let r = match get_u16_from_stream(&mut self.bytes) {
                            Some(v) => Some(Ok(OperandMode::DataWord(v))),
                            None => Some(Err(OperandParseError::OutOfBytes)),
                        };
                        proof {
                            if s.len() < 2 {
                                assert(self.bytes@ =~= s.skip(s.len() as int));
                            }
                        }
                        r
                    },
                    OperandWidth::Longword => {
                        let ghost s = self.bytes@;
                        let r = match get_u32_from_stream(&mut self.bytes) {
                            Some(v) => Some(Ok(OperandMode::DataLong(v))),
                            None => Some(Err(OperandParseError::OutOfBytes)),
                        };
                        proof {
                            if s.len() < 4 {
                                assert(self.bytes@ =~= s.skip(s.len() as int));
                            }
                        }
                        r
                    },
                    _ => {
                        // No defined instruction declares a quadword or
                        // octaword Data field; surface the request as an
                        // invalid mode rather than decode bytes it cannot
                        // mean.
                        proof {
                            assert(self.bytes@.skip(0) =~= self.bytes@);
                        }
                        Some(Err(OperandParseError::InvalidMode))
                    },
                }
            },
            FieldMode::VariableLengthTable => None,
            _ => {
                let opres = OperandMode::read_operand(&mut self.bytes, curfw, true);
                match opres {
                    Ok(om) => {
                        if om.is_valid_in_fieldmode(curfm) {
                            Some(Ok(om))
                        } else {
                            Some(Err(OperandParseError::InvalidMode))
                        }
                    },
                    Err(e) => Some(Err(e)),
                }
            },
        }
    }
}

/// Decode the instruction at the front of the stream. On success the
/// instruction identifier comes with its operand sequence, which owns the
/// rest of the stream; an exhausted stream or an opcode outside the table
/// yields `None`.
pub fn decode_instr(bytes: ByteStream) -> (r: Option<(InstructionType, OperandIter)>)
    ensures
        ({
            let (sr, n) = spec_from_instrid(bytes@);
            &&& (r matches Some((instr, it)) ==> sr == Some(instr) && it.wf() && it.modes()
                == spec_field_modes(instr) && it.widths() == spec_field_widths(instr) && it.index()
                == 0 && it.stream() == bytes@.skip(n))
            &&& (r is None ==> sr is None)
        }),
{
    let mut bytes = bytes;
    if let Some(instr) = InstructionType::from_instrid(&mut bytes) {
        Some((instr, OperandIter::from_instr(instr, bytes)))
    } else {
        None
    }
}

} // verus!
