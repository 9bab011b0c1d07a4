use modbius_core::registerslice::RegisterSlice;
use modbius_core::write::multiple_registers::WriteMultipleRegisters;
use modbius_core::ModbusSerializationError;

#[test]
fn create_new() {
    let regs_data = &[0, 1, 255, 255, 1, 0];
    let regs = RegisterSlice::new(regs_data).unwrap();
    let req = WriteMultipleRegisters::new(10, regs).unwrap();

    assert_eq!(req.addr(), 10);
    assert_eq!(req.registers().bytes(), regs_data);
    assert_eq!(req.registers().get(0), Some(1));
    assert_eq!(req.registers().get(1), Some(u16::MAX));
    assert_eq!(req.registers().get(2), Some(256));
    assert_eq!(req.data_size(), regs_data.len() + 6);
}

#[test]
fn create_fail_invalid_empty() {
    let regs = RegisterSlice::new(&[]).unwrap();
    let err = WriteMultipleRegisters::new(10, regs).unwrap_err();

    assert_eq!(err, ModbusSerializationError::Invalid);
}

#[test]
fn create_fail_too_large() {
    let regs = [0; 123 * 2 + 2];
    let regs = RegisterSlice::new(&regs).unwrap();
    let err = WriteMultipleRegisters::new(10, regs).unwrap_err();

    assert_eq!(err, ModbusSerializationError::TooLarge);
}

#[test]
fn create_fail_overflow() {
    let regs = RegisterSlice::new(&[0, 1, 2, 3, 4, 5]).unwrap();
    let err = WriteMultipleRegisters::new(0xFFFE, regs).unwrap_err();

    assert_eq!(err, ModbusSerializationError::Overflow);
}

#[test]
fn from_data_spec() {
    let data = [0, 1, 0, 2, 4, 0, 0xA, 1, 2];
    let req = WriteMultipleRegisters::from_data(&data).unwrap();

    assert_eq!(req.addr(), 1);
    assert_eq!(req.data_size(), 4 + 6);
    assert_eq!(req.registers().bytes(), &[0, 0xA, 1, 2]);
    assert_eq!(req.registers().get(0), Some(0xA));
    assert_eq!(req.registers().get(1), Some(258));
}

#[test]
fn from_data() {
    let data = [0, 1, 0, 2, 4, 0, 2, 0, 3];
    let req = WriteMultipleRegisters::from_data(&data).unwrap();

    assert_eq!(req.addr(), 1);
    assert_eq!(req.data_size(), 4 + 6);
    assert_eq!(req.registers().bytes(), &[0, 2, 0, 3]);
    assert_eq!(req.registers().get(0), Some(2));
    assert_eq!(req.registers().get(1), Some(3));
}

#[test]
fn from_data_fail_invalid0() {
    let data = [0, 0, 0, 0, 0, 0, 0];
    let err = WriteMultipleRegisters::from_data(&data).unwrap_err();

    assert_eq!(err, ModbusSerializationError::Invalid);
}

#[test]
fn from_data_fail_unexpected_eof0() {
    let data = [];
    let err = WriteMultipleRegisters::from_data(&data).unwrap_err();

    assert_eq!(
        err,
        ModbusSerializationError::UnexpectedEOF {
            got: 0,
            expected: WriteMultipleRegisters::MIN_INPUT_SIZE
        }
    );
}

#[test]
fn from_data_fail_unexpected_eof1() {
    let data = [0, 0, 0, 0, 0];
    let err = WriteMultipleRegisters::from_data(&data).unwrap_err();

    assert_eq!(
        err,
        ModbusSerializationError::UnexpectedEOF {
            got: 5,
            expected: WriteMultipleRegisters::MIN_INPUT_SIZE
        }
    );
}

#[test]
fn from_data_fail_unexpected_eof2() {
    let data = [0, 0, 0, 20, 20];
    let err = WriteMultipleRegisters::from_data(&data).unwrap_err();

    assert_eq!(
        err,
        ModbusSerializationError::UnexpectedEOF {
            got: 5,
            expected: WriteMultipleRegisters::MIN_INPUT_SIZE
        }
    );
}

#[test]
fn from_data_fail_ambivalent0() {
    let data = [0, 0, 0, 200, 3, 0, 0];
    let err = WriteMultipleRegisters::from_data(&data).unwrap_err();

    assert_eq!(err, ModbusSerializationError::Ambivalent);
}

#[test]
fn from_data_fail_ambivalent1() {
    let data = [0, 0, 0, 20, 20, 0, 0];
    let err = WriteMultipleRegisters::from_data(&data).unwrap_err();

    assert_eq!(err, ModbusSerializationError::Ambivalent);
}

#[test]
fn from_data_fail_unexpected_eof_parse_registers0() {
    let data = [0, 0, 0, 4, 8, 0, 0];
    let err = WriteMultipleRegisters::from_data(&data).unwrap_err();

    assert_eq!(
        err,
        ModbusSerializationError::UnexpectedEOF { got: data.len(), expected: 13 }
    );
}

#[test]
fn from_data_fail_unexpected_eof_parse_registers1() {
    let data = [0, 0, 0, 5, 10, 0, 0, 0, 0, 0, 0, 0, 0];
    let err = WriteMultipleRegisters::from_data(&data).unwrap_err();

    assert_eq!(
        err,
        ModbusSerializationError::UnexpectedEOF { got: data.len(), expected: 15 }
    );
}

#[test]
fn write_to_slice0() {
    let data = [0, 1, 0, 2, 4, 0, 0xA, 1, 2];
    let req = WriteMultipleRegisters::from_data(&data).unwrap();

    assert_eq!(req.data_size(), 10);
    assert_eq!(req.registers().bytes(), &[0, 0xA, 1, 2]);

    let mut out = [0u8; 10];
    req.write_to_slice(&mut out).unwrap();

    assert_eq!(out[0], WriteMultipleRegisters::MODBUS_FUNCTION_CODE.code());
    assert_eq!(&out[1..], &data);
}

#[test]
fn write_to_slice1() {
    let data = [0, 1, 0, 3, 6, 5, 6, 1, 2, 22, 42];
    let req = WriteMultipleRegisters::from_data(&data).unwrap();

    assert_eq!(req.data_size(), 12);
    assert_eq!(req.registers().bytes(), &[5, 6, 1, 2, 22, 42]);

    let mut out = [0u8; 12];
    req.write_to_slice(&mut out).unwrap();

    assert_eq!(out[0], WriteMultipleRegisters::MODBUS_FUNCTION_CODE.code());
    assert_eq!(&out[1..], &data);
}

#[test]
fn write_to_slice_fail_insufficient_buffer() {
    let data = [0, 1, 0, 2, 4, 0, 0xA, 1, 2];
    let req = WriteMultipleRegisters::from_data(&data).unwrap();

    assert_eq!(req.data_size(), 10);
    assert_eq!(req.registers().bytes(), &[0, 0xA, 1, 2]);

    let mut out = [0u8; 9];
    let err = req.write_to_slice(&mut out).unwrap_err();

    assert_eq!(
        err,
        ModbusSerializationError::InsufficientBuffer { expected: req.data_size(), got: 9 }
    );
}
