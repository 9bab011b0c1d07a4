use modbius_core::functions::{get_function, ModbusFunction, PublicModbusFunction};

#[test]
fn functions_invalid() {
    assert!(!ModbusFunction::from(0).is_valid())
}

#[test]
fn public() {
    assert!(ModbusFunction::from(1).is_public());
}

#[test]
fn functions_custom() {
    let mbf = ModbusFunction::from(69);
    assert!(mbf.is_custom());
}

#[test]
fn custom_all() {
    for i in 65u8..=72 {
        let mbf = ModbusFunction::from(i);
        assert!(mbf.is_custom() && mbf.is_valid());
    }

    for i in 100u8..=110 {
        let mbf = ModbusFunction::from(i);
        assert!(mbf.is_custom() && mbf.is_valid());
    }
}

#[test]
fn functions_invalid_from_data_no_tail() {
    let data = [0];
    let (function, tail) = get_function(&data);
    assert_eq!(
        function,
        Some(ModbusFunction::new_public(PublicModbusFunction::Invalid))
    );
    assert_eq!(tail, Some(&[] as &[u8]));
}

#[test]
fn no_data() {
    let data = [];
    let (function, tail) = get_function(&data);
    assert_eq!(function, None);
    assert_eq!(tail, None);
}

#[test]
fn functions_invalid_from_data() {
    let data = [0, 1];
    let (function, tail) = get_function(&data);
    assert_eq!(
        function,
        Some(ModbusFunction::new_public(PublicModbusFunction::Invalid))
    );
    assert_eq!(tail, Some(&[1u8] as &[u8]));
}

#[test]
fn functions_read_coils_from_data() {
    let data = [1, 1];
    let (function, tail) = get_function(&data);
    assert_eq!(
        function,
        Some(ModbusFunction::new_public(PublicModbusFunction::ReadCoils))
    );
    assert_eq!(tail, Some(&[1u8] as &[u8]));
}

#[test]
fn functions_public_codes_match() {
    for code in 1u8..=24 {
        assert!(PublicModbusFunction::is_public_function(code));
        assert_eq!(PublicModbusFunction::new(code).code(), code);
    }
    assert!(PublicModbusFunction::is_public_function(43));
    assert_eq!(PublicModbusFunction::new(43).code(), 43);
    assert!(!PublicModbusFunction::is_public_function(0));
    assert_eq!(PublicModbusFunction::new(0), PublicModbusFunction::Invalid);
    assert_eq!(PublicModbusFunction::new(25), PublicModbusFunction::Invalid);
    assert_eq!(PublicModbusFunction::new(42), PublicModbusFunction::Invalid);
    assert_eq!(PublicModbusFunction::new(44), PublicModbusFunction::Invalid);
}

#[test]
fn functions_reserved_and_exception() {
    assert!(ModbusFunction::from(25).is_public_reserved());
    assert!(!ModbusFunction::from(69).is_public_reserved());
    assert!(!ModbusFunction::from(0).is_public_reserved());
    assert!(ModbusFunction::from(128).is_exception());
    assert!(!ModbusFunction::from(127).is_exception());
    assert!(ModbusFunction::from(1).is(PublicModbusFunction::ReadCoils));
    assert!(!ModbusFunction::from(2).is(PublicModbusFunction::ReadCoils));
}
