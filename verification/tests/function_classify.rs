use modbius_core::function::{
    get_function, CustomModbusFunction, ModbusFunction, OtherModbusFunction, PublicModbusFunction,
};

#[test]
fn function_invalid() {
    assert_eq!(
        ModbusFunction::from(0),
        ModbusFunction::Public(PublicModbusFunction::Invalid)
    )
}

#[test]
fn function_custom() {
    assert_eq!(
        ModbusFunction::from(66),
        ModbusFunction::Custom(CustomModbusFunction::new(66).unwrap())
    );
}

#[test]
fn other() {
    assert_eq!(
        ModbusFunction::from(42),
        ModbusFunction::Other(OtherModbusFunction::new(42).unwrap())
    );
}

#[test]
fn function_invalid_from_data_no_tail() {
    let data = [0];
    let (function, tail) = get_function(&data);
    assert_eq!(
        function,
        Some(ModbusFunction::Public(PublicModbusFunction::Invalid))
    );
    assert_eq!(tail, Some(&[] as &[u8]));
}

#[test]
fn invalid_from_data_no_data() {
    let data = [];
    let (function, tail) = get_function(&data);
    assert_eq!(function, None);
    assert_eq!(tail, None);
}

#[test]
fn function_invalid_from_data() {
    let data = [0, 1];
    let (function, tail) = get_function(&data);
    assert_eq!(
        function,
        Some(ModbusFunction::Public(PublicModbusFunction::Invalid))
    );
    assert_eq!(tail, Some(&[1u8] as &[u8]));
}

#[test]
fn function_read_coils_from_data() {
    let data = [1, 1];
    let (function, tail) = get_function(&data);
    assert_eq!(
        function,
        Some(ModbusFunction::Public(PublicModbusFunction::ReadCoils))
    );
    assert_eq!(tail, Some(&[1u8] as &[u8]));
}

#[test]
fn classify_every_byte_exactly_once() {
    for code in 0u8..=255 {
        let public = PublicModbusFunction::is_public_function(code);
        let custom = CustomModbusFunction::is_custom_function(code);
        let other = OtherModbusFunction::is_other_function(code);
        let camps = [public && !custom, custom, other];
        assert_eq!(camps.iter().filter(|&&b| b).count(), 1);
        match ModbusFunction::from(code) {
            ModbusFunction::Public(p) => {
                assert!(public && !custom);
                assert_eq!(p, PublicModbusFunction::new(code));
            }
            ModbusFunction::Custom(c) => {
                assert!(custom);
                assert_eq!(c.code(), code);
            }
            ModbusFunction::Other(o) => {
                assert!(other);
                assert_eq!(o.code(), code);
            }
        }
        assert_eq!(ModbusFunction::from(code).code(), code);
    }
}

#[test]
fn classify_range_edges() {
    assert!(matches!(ModbusFunction::from(24), ModbusFunction::Public(_)));
    assert!(matches!(ModbusFunction::from(25), ModbusFunction::Other(_)));
    assert!(matches!(ModbusFunction::from(43), ModbusFunction::Public(_)));
    assert!(matches!(ModbusFunction::from(64), ModbusFunction::Other(_)));
    assert!(matches!(ModbusFunction::from(65), ModbusFunction::Custom(_)));
    assert!(matches!(ModbusFunction::from(72), ModbusFunction::Custom(_)));
    assert!(matches!(ModbusFunction::from(73), ModbusFunction::Other(_)));
    assert!(matches!(ModbusFunction::from(99), ModbusFunction::Other(_)));
    assert!(matches!(ModbusFunction::from(100), ModbusFunction::Custom(_)));
    assert!(matches!(ModbusFunction::from(110), ModbusFunction::Custom(_)));
    assert!(matches!(ModbusFunction::from(111), ModbusFunction::Other(_)));
}

#[test]
fn custom_and_other_constructors_reject_foreign_codes() {
    assert!(CustomModbusFunction::new(64).is_none());
    assert!(CustomModbusFunction::new(73).is_none());
    assert!(OtherModbusFunction::new(66).is_none());
    assert!(OtherModbusFunction::new(0).is_none());
    assert!(OtherModbusFunction::new(42).is_some());
}
