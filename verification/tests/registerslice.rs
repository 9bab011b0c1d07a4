use modbius_core::registerslice::RegisterSlice;
use modbius_core::ModbusSerializationError;

#[test]
fn register_slice_rejects_odd_length() {
    assert_eq!(
        RegisterSlice::new(&[1, 2, 3]).unwrap_err(),
        ModbusSerializationError::Invalid
    );
    assert_eq!(
        RegisterSlice::new(&[1]).unwrap_err(),
        ModbusSerializationError::Invalid
    );
}

#[test]
fn register_slice_lengths() {
    let rs = RegisterSlice::new(&[1, 2, 3, 4, 5, 6]).unwrap();
    assert_eq!(rs.len(), 3);
    assert_eq!(rs.bytes_len(), 6);
    assert_eq!(rs.bytes(), &[1, 2, 3, 4, 5, 6]);

    let empty = RegisterSlice::new(&[]).unwrap();
    assert_eq!(empty.len(), 0);
    assert_eq!(empty.bytes_len(), 0);
}

#[test]
fn register_slice_get_decodes_big_endian() {
    let rs = RegisterSlice::new(&[0, 0x0A, 1, 2, 0xFF, 0xFF]).unwrap();
    assert_eq!(rs.get(0), Some(0x000A));
    assert_eq!(rs.get(1), Some(0x0102));
    assert_eq!(rs.get(2), Some(0xFFFF));
    assert_eq!(rs.get(3), None);
    assert_eq!(rs.get(usize::MAX), None);
}
