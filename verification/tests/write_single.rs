use modbius_core::requests::write::single::WriteSingleCoil;
use modbius_core::{BitState, ModbusSerializationError};

#[test]
fn write_single_coil_parse_on_and_off() {
    let (req, tail) = WriteSingleCoil::from_data(&[0, 9, 0xFF, 0, 5]).unwrap();
    assert_eq!(req, WriteSingleCoil::new(9, BitState::On));
    assert_eq!(tail, &[5]);

    let (req, tail) = WriteSingleCoil::from_data(&[1, 0, 0, 0]).unwrap();
    assert_eq!(req, WriteSingleCoil::new(256, BitState::Off));
    assert!(tail.is_empty());
}

#[test]
fn write_single_coil_invalid_wire_state() {
    assert_eq!(
        WriteSingleCoil::from_data(&[0, 9, 0, 1]).unwrap_err(),
        ModbusSerializationError::InvalidValue
    );
    assert_eq!(
        WriteSingleCoil::from_data(&[0, 9, 0xFF, 0xFF]).unwrap_err(),
        ModbusSerializationError::InvalidValue
    );
}

#[test]
fn write_single_coil_short_input_reports_sizes() {
    assert_eq!(
        WriteSingleCoil::from_data(&[0, 9, 0xFF]).unwrap_err(),
        ModbusSerializationError::UnexpectedEOF { expected: 4, got: 3 }
    );
    assert_eq!(
        WriteSingleCoil::from_data(&[]).unwrap_err(),
        ModbusSerializationError::UnexpectedEOF { expected: 4, got: 0 }
    );
}

#[test]
fn write_single_coil_into_data() {
    let req = WriteSingleCoil::new(0x0102, BitState::On);
    assert_eq!(req.into_data(), [5, 1, 2, 0xFF, 0]);

    let req = WriteSingleCoil::new(0x0102, BitState::Off);
    assert_eq!(req.into_data(), [5, 1, 2, 0, 0]);
}

#[test]
fn write_single_coil_write_to_slice() {
    let mut out = [7u8; 7];
    WriteSingleCoil::new(3, BitState::On).write_to_slice(&mut out).unwrap();
    assert_eq!(out, [5, 0, 3, 0xFF, 0, 7, 7]);

    let mut small = [0u8; 4];
    assert_eq!(
        WriteSingleCoil::new(3, BitState::On).write_to_slice(&mut small).unwrap_err(),
        ModbusSerializationError::InsufficientBuffer { expected: 5, got: 4 }
    );
    assert_eq!(small, [0, 0, 0, 0]);
}

#[test]
fn write_single_coil_round_trip() {
    let req = WriteSingleCoil::new(40, BitState::On);
    let frame = req.into_data();
    let (back, tail) = WriteSingleCoil::from_data(&frame[1..]).unwrap();
    assert_eq!(back, req);
    assert!(tail.is_empty());
}
