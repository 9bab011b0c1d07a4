use modbius_core::registerslice::RegisterSlice;
use modbius_core::write::multiple_registers::WriteMultipleRegisters;
use modbius_core::ModbusSerializationError;

#[test]
fn quantity_zero_is_invalid() {
    let regs = RegisterSlice::new(&[]).unwrap();
    assert_eq!(
        WriteMultipleRegisters::new(5, regs).unwrap_err(),
        ModbusSerializationError::Invalid
    );
}

#[test]
fn quantity_124_is_too_large() {
    let bytes = [0u8; 124 * 2];
    let regs = RegisterSlice::new(&bytes).unwrap();
    assert_eq!(
        WriteMultipleRegisters::new(0, regs).unwrap_err(),
        ModbusSerializationError::TooLarge
    );
}

#[test]
fn quantity_123_at_highest_address_succeeds() {
    let bytes = [0u8; 123 * 2];
    let regs = RegisterSlice::new(&bytes).unwrap();
    let req = WriteMultipleRegisters::new(0xFFFF - 122, regs).unwrap();
    assert_eq!(req.addr(), 0xFFFF - 122);
    assert_eq!(req.registers().len(), 123);
}

#[test]
fn last_register_may_sit_on_the_highest_address() {
    // The run 0xFFFE, 0xFFFF just fits; one register more reaches past it.
    let regs = RegisterSlice::new(&[0, 1, 2, 3]).unwrap();
    let req = WriteMultipleRegisters::new(0xFFFE, regs).unwrap();
    assert_eq!(req.addr(), 0xFFFE);

    let regs = RegisterSlice::new(&[0, 1, 2, 3]).unwrap();
    assert_eq!(
        WriteMultipleRegisters::new(0xFFFF, regs).unwrap_err(),
        ModbusSerializationError::Overflow
    );
}

#[test]
fn address_range_overflow_is_rejected() {
    let regs = RegisterSlice::new(&[0, 0, 0, 0, 0, 0]).unwrap();
    assert_eq!(
        WriteMultipleRegisters::new(0xFFFE, regs).unwrap_err(),
        ModbusSerializationError::Overflow
    );
}

#[test]
fn end_to_end_parse_and_reencode() {
    let data = [0u8, 1, 0, 2, 4, 0, 0x0A, 1, 2];
    let req = WriteMultipleRegisters::from_data(&data).unwrap();

    assert_eq!(req.addr(), 1);
    assert_eq!(req.registers().len(), 2);
    assert_eq!(req.registers().get(0), Some(0x000A));
    assert_eq!(req.registers().get(1), Some(0x0102));

    let mut out = [0u8; 10];
    req.write_to_slice(&mut out).unwrap();
    assert_eq!(out, [16, 0, 1, 0, 2, 4, 0, 0x0A, 1, 2]);
    assert_eq!(&out[1..], &data);
}

#[test]
fn end_to_end_contradicting_length_fields() {
    let data = [0u8, 1, 0, 20, 20, 0, 0];
    assert_eq!(
        WriteMultipleRegisters::from_data(&data).unwrap_err(),
        ModbusSerializationError::Ambivalent
    );
}

#[test]
fn ambivalent_byte_count_smaller_and_larger() {
    // byteCount 2 declares fewer bytes than quantity 3 asks for.
    let smaller = [0u8, 0, 0, 3, 2, 0, 0];
    assert_eq!(
        WriteMultipleRegisters::from_data(&smaller).unwrap_err(),
        ModbusSerializationError::Ambivalent
    );

    // byteCount 6 declares more bytes than quantity 1 asks for.
    let larger = [0u8, 0, 0, 1, 6, 0, 0];
    assert_eq!(
        WriteMultipleRegisters::from_data(&larger).unwrap_err(),
        ModbusSerializationError::Ambivalent
    );
}

#[test]
fn round_trip_addresses_and_words_exactly() {
    let bytes = [0x12u8, 0x34, 0x56, 0x78, 0x9A, 0xBC];
    let regs = RegisterSlice::new(&bytes).unwrap();
    let req = WriteMultipleRegisters::new(0x0405, regs).unwrap();

    let mut out = [0u8; 12];
    req.write_to_slice(&mut out).unwrap();

    let back = WriteMultipleRegisters::from_data(&out[1..]).unwrap();
    assert_eq!(back.addr(), 0x0405);
    assert_eq!(back.registers().bytes(), &bytes);
    assert_eq!(back.registers().get(0), Some(0x1234));
    assert_eq!(back.registers().get(1), Some(0x5678));
    assert_eq!(back.registers().get(2), Some(0x9ABC));
}

#[test]
fn odd_byte_count_is_invalid() {
    // byteCount 3 agrees with quantity 1 (3 / 2 == 1) but does not
    // describe whole registers.
    let data = [0u8, 0, 0, 1, 3, 0, 0, 0];
    assert_eq!(
        WriteMultipleRegisters::from_data(&data).unwrap_err(),
        ModbusSerializationError::Invalid
    );
}
