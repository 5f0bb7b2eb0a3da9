//! Single-operand decoding, over every addressing mode and both failure
//! kinds.

use ervax::RegID;
use ervax::instrs::OperandMode;
use ervax::instrs::OperandParseError;
use ervax::instrs::OperandWidth;
use ervax::stream::ByteStream;
use ervax::instrs::FieldMode;

#[test]
fn decode_literal() {
    let mut iter = ByteStream::new(vec![0x02]);

    let r = OperandMode::read_operand(&mut iter, OperandWidth::Byte, true);
    assert_eq!(r, Ok(OperandMode::Literal(2)));
}

#[test]
fn decode_register() {
    let mut iter = ByteStream::new(vec![0x55]);

    let r = OperandMode::read_operand(&mut iter, OperandWidth::Byte, true);
    assert_eq!(r, Ok(OperandMode::Register(RegID(5))));
}

#[test]
fn decode_deferred_register() {
    let mut iter = ByteStream::new(vec![0x65]);

    let r = OperandMode::read_operand(&mut iter, OperandWidth::Byte, true);
    assert_eq!(r, Ok(OperandMode::RegisterDeferred(RegID(5))));
}

#[test]
fn decode_immediate8() {
    let mut iter = ByteStream::new(vec![0x8F, 0x02]);

    let r = OperandMode::read_operand(&mut iter, OperandWidth::Byte, true);
    assert_eq!(r, Ok(OperandMode::Immediate8(2)));
}

#[test]
fn decode_immediate16() {
    let mut literal: Vec<u8> = vec![0x8F];
    let mut x: Vec<u8> = (&(2 as u16).to_le_bytes())[..].into();
    literal.append(&mut x);
    let mut iter = ByteStream::new(literal);

    let r = OperandMode::read_operand(&mut iter, OperandWidth::Word, true);
    assert_eq!(r, Ok(OperandMode::Immediate16(2)));
}

#[test]
fn decode_immediate32() {
    let mut literal: Vec<u8> = vec![0x8F];
    let mut x: Vec<u8> = (&(2 as u32).to_le_bytes())[..].into();
    literal.append(&mut x);
    let mut iter = ByteStream::new(literal);

    let r = OperandMode::read_operand(&mut iter, OperandWidth::Longword, true);
    assert_eq!(r, Ok(OperandMode::Immediate32(2)));
}

#[test]
fn decode_immediate64() {
    let mut literal: Vec<u8> = vec![0x8F];
    let mut x: Vec<u8> = (&(2 as u64).to_le_bytes())[..].into();
    literal.append(&mut x);
    let mut iter = ByteStream::new(literal);

    let r = OperandMode::read_operand(&mut iter, OperandWidth::Quadword, true);
    assert_eq!(r, Ok(OperandMode::Immediate64(2)));
}

#[test]
fn decode_immediate128() {
    let mut literal: Vec<u8> = vec![0x8F];
    let mut x: Vec<u8> = (&(2 as u128).to_le_bytes())[..].into();
    literal.append(&mut x);
    let mut iter = ByteStream::new(literal);

    let r = OperandMode::read_operand(&mut iter, OperandWidth::Octaword, true);
    assert_eq!(r, Ok(OperandMode::Immediate128(2)));
}

#[test]
fn decode_autoincrement() {
    let mut iter = ByteStream::new(vec![0x85]);

    let r = OperandMode::read_operand(&mut iter, OperandWidth::Byte, true);
    assert_eq!(r, Ok(OperandMode::AutoIncrement(RegID(5))));
}

#[test]
fn decode_autoincrement_deferred() {
    let mut iter = ByteStream::new(vec![0x95]);

    let r = OperandMode::read_operand(&mut iter, OperandWidth::Byte, true);
    assert_eq!(r, Ok(OperandMode::AutoIncrementDeferred(RegID(5))));
}

#[test]
fn decode_absolute() {
    let mut literal: Vec<u8> = vec![0x9F];
    let mut x: Vec<u8> = (&(0x1234_5678 as u32).to_le_bytes())[..].into();
    literal.append(&mut x);
    let mut iter = ByteStream::new(literal);

    let r = OperandMode::read_operand(&mut iter, OperandWidth::Byte, true);
    assert_eq!(r, Ok(OperandMode::Absolute(0x1234_5678)));
}

// -----
// Operand decoding failure tests
// -----

#[test]
fn doubly_indexed() {
    let mut iter = ByteStream::new(vec![0x40, 0x40]);

    let r = OperandMode::read_operand(&mut iter, OperandWidth::Byte, true);
    assert_eq!(r, Err(OperandParseError::InvalidMode));
}

#[test]
fn decode_immediate8_not_enough_bytes() {
    let mut iter = ByteStream::new(vec![0x8F]);

    let r = OperandMode::read_operand(&mut iter, OperandWidth::Byte, true);
    assert_eq!(r, Err(OperandParseError::OutOfBytes));
}

#[test]
fn decode_no_bytes() {
    let mut iter = ByteStream::new(vec![]);

    let r = OperandMode::read_operand(&mut iter, OperandWidth::Byte, true);
    assert_eq!(r, Err(OperandParseError::OutOfBytes));
}

// -----
// Further operand coverage
// -----

#[test]
fn decode_displacements() {
    let mut iter = ByteStream::new(vec![0xA3, 0xFF]);
    let r = OperandMode::read_operand(&mut iter, OperandWidth::Byte, true);
    assert_eq!(r, Ok(OperandMode::ByteDisplacement(RegID(3), -1)));

    let mut iter = ByteStream::new(vec![0xB3, 0x00, 0x80]);
    let r = OperandMode::read_operand(&mut iter, OperandWidth::Byte, true);
    assert_eq!(r, Ok(OperandMode::WordDisplacement(RegID(3), -32768)));

    let mut iter = ByteStream::new(vec![0xC3, 0x78, 0x56, 0x34, 0x12]);
    let r = OperandMode::read_operand(&mut iter, OperandWidth::Byte, true);
    assert_eq!(r, Ok(OperandMode::LongwordDisplacement(RegID(3), 0x1234_5678)));

    let mut iter = ByteStream::new(vec![0xD4, 0x7F]);
    let r = OperandMode::read_operand(&mut iter, OperandWidth::Byte, true);
    assert_eq!(r, Ok(OperandMode::ByteDisplacementDeferred(RegID(4), 127)));

    let mut iter = ByteStream::new(vec![0xE4, 0x34, 0x12]);
    let r = OperandMode::read_operand(&mut iter, OperandWidth::Byte, true);
    assert_eq!(r, Ok(OperandMode::WordDisplacementDeferred(RegID(4), 0x1234)));

    let mut iter = ByteStream::new(vec![0xF4, 0xFF, 0xFF, 0xFF, 0xFF]);
    let r = OperandMode::read_operand(&mut iter, OperandWidth::Byte, true);
    assert_eq!(r, Ok(OperandMode::LongwordDisplacementDeferred(RegID(4), -1)));
}

#[test]
fn decode_autodecrement() {
    let mut iter = ByteStream::new(vec![0x76]);
    let r = OperandMode::read_operand(&mut iter, OperandWidth::Byte, true);
    assert_eq!(r, Ok(OperandMode::AutoDecrement(RegID(6))));
}

#[test]
fn decode_immediate16_value() {
    let mut iter = ByteStream::new(vec![0x8F, 0x34, 0x12]);
    let r = OperandMode::read_operand(&mut iter, OperandWidth::Word, true);
    assert_eq!(r, Ok(OperandMode::Immediate16(0x1234)));
}

#[test]
fn indexed_with_valid_base() {
    // Index register 2, base is register-deferred on register 5.
    let mut iter = ByteStream::new(vec![0x42, 0x65]);
    let r = OperandMode::read_operand(&mut iter, OperandWidth::Byte, true);
    assert_eq!(
        r,
        Ok(OperandMode::Indexed(Box::new(OperandMode::RegisterDeferred(RegID(5)))))
    );
}

#[test]
fn indexed_with_register_base_is_invalid() {
    // The inner operand names a plain register, which cannot be a base.
    let mut iter = ByteStream::new(vec![0x42, 0x55]);
    let r = OperandMode::read_operand(&mut iter, OperandWidth::Byte, true);
    assert_eq!(r, Err(OperandParseError::InvalidMode));
}

#[test]
fn indexed_with_absolute_base() {
    // An absolute address is an acceptable base.
    let mut iter = ByteStream::new(vec![0x42, 0x9F, 0x78, 0x56, 0x34, 0x12]);
    let r = OperandMode::read_operand(&mut iter, OperandWidth::Byte, true);
    assert_eq!(
        r,
        Ok(OperandMode::Indexed(Box::new(OperandMode::Absolute(0x1234_5678))))
    );
}

#[test]
fn indexed_with_autoincrement_deferred_base_is_invalid() {
    let mut iter = ByteStream::new(vec![0x42, 0x95]);
    let r = OperandMode::read_operand(&mut iter, OperandWidth::Byte, true);
    assert_eq!(r, Err(OperandParseError::InvalidMode));
}

#[test]
fn indexed_not_allowed() {
    let mut iter = ByteStream::new(vec![0x42, 0x65]);
    let r = OperandMode::read_operand(&mut iter, OperandWidth::Byte, false);
    assert_eq!(r, Err(OperandParseError::InvalidMode));
}

#[test]
fn operand_validity_against_field_modes() {
    let literal = OperandMode::Literal(3);
    assert!(literal.is_valid_in_fieldmode(FieldMode::Read));
    assert!(!literal.is_valid_in_fieldmode(FieldMode::Write));
    assert!(!literal.is_valid_in_fieldmode(FieldMode::Modify));
    assert!(!literal.is_valid_in_fieldmode(FieldMode::Address));
    assert!(!literal.is_valid_in_fieldmode(FieldMode::Bitfield));

    let register = OperandMode::Register(RegID(1));
    assert!(register.is_valid_in_fieldmode(FieldMode::Read));
    assert!(register.is_valid_in_fieldmode(FieldMode::Write));
    assert!(register.is_valid_in_fieldmode(FieldMode::Modify));
    assert!(!register.is_valid_in_fieldmode(FieldMode::Address));
    assert!(register.is_valid_in_fieldmode(FieldMode::Bitfield));

    let imm = OperandMode::Immediate8(9);
    assert!(imm.is_valid_in_fieldmode(FieldMode::Read));
    assert!(!imm.is_valid_in_fieldmode(FieldMode::Write));
    assert!(!imm.is_valid_in_fieldmode(FieldMode::Modify));
    assert!(imm.is_valid_in_fieldmode(FieldMode::Address));

    let deferred = OperandMode::RegisterDeferred(RegID(2));
    assert!(deferred.is_valid_in_fieldmode(FieldMode::Address));
}
