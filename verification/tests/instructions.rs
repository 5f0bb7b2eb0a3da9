//! Whole-instruction decoding and the opcode table.

use ervax::RegID;
use ervax::instrparse::decode_instr;
use ervax::instrs::OperandMode;
use ervax::instrs::OperandParseError;
use ervax::instrs::OperandWidth;
use ervax::instrtypes::InstructionType;
use ervax::stream::ByteStream;
use ervax::stream::get_u128_from_stream;
use ervax::stream::get_u16_from_stream;
use ervax::stream::get_u32_from_stream;
use ervax::stream::get_u64_from_stream;

#[test]
fn decode_addb2_imm_reg() {
    let iter = ByteStream::new(vec![0x80, 0x8F, 0x02, 0x51]);

    let (instr, mut operiter) = decode_instr(iter).unwrap();
    assert_eq!(instr, InstructionType::ADDB2);
    assert_eq!(operiter.next().unwrap(), Ok(OperandMode::Immediate8(2)));
    assert_eq!(operiter.next().unwrap(), Ok(OperandMode::Register(RegID(1))));
}

#[test]
fn decode_bugw() {
    let iter = ByteStream::new(vec![0xFF, 0xFE, 0x02, 0x00]);

    let (instr, mut operiter) = decode_instr(iter).unwrap();
    assert_eq!(instr, InstructionType::BUGW);
    assert_eq!(operiter.next().unwrap(), Ok(OperandMode::DataWord(2)));
}

#[test]
fn decode_ret() {
    let iter = ByteStream::new(vec![0x04]);

    let (instr, mut operiter) = decode_instr(iter).unwrap();
    assert_eq!(instr, InstructionType::RET);
    assert_eq!(operiter.next(), None);
}

#[test]
fn decode_invalid() {
    let iter = ByteStream::new(vec![0xFF, 0xFF]);

    if let Some(_) = decode_instr(iter) {
        panic!("Decoded invalid successfully???");
    } else {

    }
}

#[test]
/// Tests to make sure field_modes and field_widths return the same length arrays for all instructions
fn all_operand_list_lens_equal() {
    for i in 0..252 {
        let v = vec![i as u8];
        let mut iter = ByteStream::new(v);
        if let Some(i) = InstructionType::from_instrid(&mut iter) {
            if i.field_widths().len() != i.field_modes().len() {
                panic!("Instruction {:?} has mismatched field modes/width lengths!", i);
            }
        }
    }

    for i in 252..256 {
        for _j in 0..256 {
            let v = vec![i as u8];
            let mut iter = ByteStream::new(v);
            if let Some(i) = InstructionType::from_instrid(&mut iter) {
                if i.field_widths().len() != i.field_modes().len() {
                    panic!("Instruction {:?} has mismatched field modes/width lengths!", i);
                }
            }
        }
    }
}

// -----
// Further instruction coverage
// -----

#[test]
fn two_byte_opcode_tables_parallel() {
    // Sweep every two-byte opcode as well, with the real second byte.
    for i in 252..=255u16 {
        for j in 0..=255u16 {
            let v = vec![i as u8, j as u8];
            let mut iter = ByteStream::new(v);
            if let Some(instr) = InstructionType::from_instrid(&mut iter) {
                assert_eq!(instr.field_widths().len(), instr.field_modes().len());
                assert_eq!(instr.field_count() as usize, instr.field_modes().len());
            }
        }
    }
}

#[test]
fn decode_addl2_reg_reg() {
    let iter = ByteStream::new(vec![0xC0, 0x50, 0x51]);

    let (instr, mut operiter) = decode_instr(iter).unwrap();
    assert_eq!(instr, InstructionType::ADDL2);
    assert_eq!(
        instr.field_widths(),
        vec![OperandWidth::Longword, OperandWidth::Longword]
    );
    assert_eq!(operiter.next().unwrap(), Ok(OperandMode::Register(RegID(0))));
    assert_eq!(operiter.next().unwrap(), Ok(OperandMode::Register(RegID(1))));
    assert_eq!(operiter.next(), None);
}

#[test]
fn decode_literal_in_modify_field_is_invalid() {
    // The second field of ADDL2 is Modify; a literal cannot satisfy it.
    let iter = ByteStream::new(vec![0xC0, 0x50, 0x01]);

    let (instr, mut operiter) = decode_instr(iter).unwrap();
    assert_eq!(instr, InstructionType::ADDL2);
    assert_eq!(operiter.next().unwrap(), Ok(OperandMode::Register(RegID(0))));
    assert_eq!(
        operiter.next().unwrap(),
        Err(OperandParseError::InvalidMode)
    );
}

#[test]
fn decode_operand_runs_out_of_bytes() {
    // ADDB2 with an immediate whose value byte is missing.
    let iter = ByteStream::new(vec![0x80, 0x8F]);

    let (instr, mut operiter) = decode_instr(iter).unwrap();
    assert_eq!(instr, InstructionType::ADDB2);
    assert_eq!(operiter.next().unwrap(), Err(OperandParseError::OutOfBytes));
}

#[test]
fn case_instruction_stops_at_table() {
    // CASEB declares three operands and then the displacement table marker;
    // the sequence ends there and hands the cursor back for the table.
    let iter = ByteStream::new(vec![0x8F, 0x01, 0x02, 0x03, 0xAA, 0xBB]);

    let (instr, mut operiter) = decode_instr(iter).unwrap();
    assert_eq!(instr, InstructionType::CASEB);
    assert_eq!(operiter.next().unwrap(), Ok(OperandMode::Literal(1)));
    assert_eq!(operiter.next().unwrap(), Ok(OperandMode::Literal(2)));
    assert_eq!(operiter.next().unwrap(), Ok(OperandMode::Literal(3)));
    assert_eq!(operiter.next(), None);
    let (mut rest, field) = operiter.destructure();
    assert_eq!(field, 4);
    assert_eq!(rest.next(), Some(0xAA));
    assert_eq!(rest.next(), Some(0xBB));
}

#[test]
fn operand_iter_done_flag() {
    let iter = ByteStream::new(vec![0x04]);
    let (_, mut operiter) = decode_instr(iter).unwrap();
    assert!(!operiter.is_done());
    assert_eq!(operiter.next(), None);
    assert!(operiter.is_done());
    assert_eq!(operiter.next(), None);
    operiter.set_done();
    assert!(operiter.is_done());
}

#[test]
fn opcode_lookup() {
    assert_eq!(InstructionType::from_opcode(0x80), Some(InstructionType::ADDB2));
    assert_eq!(InstructionType::from_opcode(0xC0), Some(InstructionType::ADDL2));
    assert_eq!(InstructionType::from_opcode(0xFEFF), Some(InstructionType::BUGW));
    assert_eq!(InstructionType::from_opcode(0xFDFF), Some(InstructionType::BUGL));
    assert_eq!(InstructionType::from_opcode(0x7CFD), Some(InstructionType::CLRO));
    assert_eq!(InstructionType::from_opcode(0xFFFF), None);
}

#[test]
fn field_counts() {
    assert_eq!(InstructionType::RET.field_count(), 0);
    assert_eq!(InstructionType::ADDB2.field_count(), 2);
    assert_eq!(InstructionType::ADDB3.field_count(), 3);
    assert_eq!(InstructionType::INDEX.field_count(), 6);
    assert_eq!(InstructionType::CASEB.field_count(), 4);
}

#[test]
fn decode_instr_empty_stream() {
    let iter = ByteStream::new(vec![]);
    assert!(decode_instr(iter).is_none());
}

#[test]
fn decode_instr_prefix_without_second_byte() {
    let iter = ByteStream::new(vec![0xFD]);
    assert!(decode_instr(iter).is_none());
}

#[test]
fn stream_little_endian_pulls() {
    let mut s = ByteStream::new(vec![0x34, 0x12]);
    assert_eq!(get_u16_from_stream(&mut s), Some(0x1234));

    let mut s = ByteStream::new(vec![0x78, 0x56, 0x34, 0x12]);
    assert_eq!(get_u32_from_stream(&mut s), Some(0x1234_5678));

    let mut s = ByteStream::new(vec![0xEF, 0xCD, 0xAB, 0x89, 0x67, 0x45, 0x23, 0x01]);
    assert_eq!(get_u64_from_stream(&mut s), Some(0x0123_4567_89AB_CDEF));

    let mut s = ByteStream::new(vec![
        0xEF, 0xCD, 0xAB, 0x89, 0x67, 0x45, 0x23, 0x01, 0x10, 0x32, 0x54, 0x76, 0x98, 0xBA, 0xDC,
        0xFE,
    ]);
    assert_eq!(
        get_u128_from_stream(&mut s),
        Some(0xFEDC_BA98_7654_3210_0123_4567_89AB_CDEFu128)
    );

    let mut s = ByteStream::new(vec![0x34]);
    assert_eq!(get_u16_from_stream(&mut s), None);
    assert_eq!(s.remaining(), 0);
}
