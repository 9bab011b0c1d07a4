use modbius_core::util::{
    get_start_addr, get_write_quantity, read_addr_quantity, read_u16, register_to_native_endian,
    registers_from_modbus_data, write_addr_quantity, AddrQuantity,
};
use modbius_core::ModbusSerializationError;

#[test]
fn read8() {
    let (w8, tail) = read_u16(&[0, 8]).unwrap();
    assert_eq!(w8, 8);
    assert_eq!(tail, []);
}

#[test]
fn read0() {
    let (w8, tail) = read_u16(&[0, 0, 100]).unwrap();
    assert_eq!(w8, 0);
    assert_eq!(tail, &[100]);
}

#[test]
fn read256() {
    let (w8, tail) = read_u16(&[1, 0, 100, 200, 2, 3, 4, 5]).unwrap();
    assert_eq!(w8, 256);
    assert_eq!(tail, &[100, 200, 2, 3, 4, 5]);
}

#[test]
#[should_panic(expected = "called `Result::unwrap()` on an `Err` value")]
fn read_error1() {
    let (_w8, _tail) = read_u16(&[1]).unwrap();
}

#[test]
#[should_panic(expected = "called `Result::unwrap()` on an `Err` value")]
fn read_error0() {
    let (_w8, _tail) = read_u16(&[]).unwrap();
}

#[test]
fn read_u16_short_input_reports_sizes() {
    assert_eq!(
        read_u16(&[9]).unwrap_err(),
        ModbusSerializationError::UnexpectedEOF { expected: 2, got: 1 }
    );
    assert_eq!(
        read_u16(&[]).unwrap_err(),
        ModbusSerializationError::UnexpectedEOF { expected: 2, got: 0 }
    );
}

#[test]
fn read_addr_quantity_pairs() {
    let (addr, quantity, tail) = read_addr_quantity(&[1, 0, 0, 33, 7]).unwrap();
    assert_eq!(addr, 256);
    assert_eq!(quantity, 33);
    assert_eq!(tail, &[7]);

    assert_eq!(
        read_addr_quantity(&[1, 0, 0]).unwrap_err(),
        ModbusSerializationError::UnexpectedEOF { expected: 4, got: 3 }
    );
}

#[test]
fn write_addr_quantity_exact_bytes() {
    let mut out = [9u8; 6];
    write_addr_quantity(0x0102, 0x0304, &mut out).unwrap();
    assert_eq!(out, [1, 2, 3, 4, 9, 9]);

    let mut small = [0u8; 3];
    assert_eq!(
        write_addr_quantity(1, 1, &mut small).unwrap_err(),
        ModbusSerializationError::InsufficientBuffer { expected: 4, got: 3 }
    );
    assert_eq!(small, [0, 0, 0]);
}

#[test]
fn write_quantity_and_start_addr() {
    let (q, tail) = get_write_quantity(&[0, 40, 1]);
    assert_eq!(q, Some(40));
    assert_eq!(tail, &[1]);

    let (q, tail) = get_write_quantity(&[0, 40]);
    assert_eq!(q, None);
    assert_eq!(tail, &[0, 40]);

    let (a, tail) = get_start_addr(&[1, 0, 9]);
    assert_eq!(a, Some(256));
    assert_eq!(tail, &[9]);

    let (a, tail) = get_start_addr(&[1, 0]);
    assert_eq!(a, None);
    assert_eq!(tail, &[1, 0]);
}

#[test]
fn addr_quantity_round_trip() {
    let data = [0, 10, 0, 20, 77];
    let (aq, tail) = AddrQuantity::from_modbus_data(&data);
    let aq = aq.unwrap();
    assert_eq!(aq.addr, 10);
    assert_eq!(aq.quantity, 20);
    assert_eq!(tail, &[77]);

    let mut out = [0u8; 5];
    aq.write_to_modbus_data(&mut out);
    assert_eq!(out, [0, 10, 0, 20, 0]);

    let (aq, tail) = AddrQuantity::from_modbus_data(&[1, 2, 3]);
    assert_eq!(aq, None);
    assert_eq!(tail, &[1, 2, 3]);
}

#[test]
fn registers_decode_big_endian() {
    let data = [0, 0x0A, 1, 2, 0xFF, 0xFF];
    let mut regs = [0u16; 4];
    registers_from_modbus_data(3, &data, &mut regs);
    assert_eq!(regs, [0x000A, 0x0102, 0xFFFF, 0]);
}

#[test]
fn register_swap_is_involution() {
    assert_eq!(register_to_native_endian(0x0A00), 0x000A);
    assert_eq!(register_to_native_endian(0x1234), 0x3412);
    assert_eq!(register_to_native_endian(register_to_native_endian(0xBEEF)), 0xBEEF);
}
