use modbius_core::slaveid::get_slaveid;
use modbius_core::SlaveId;

#[test]
fn new10() {
    let id = SlaveId::new(10);
    assert_eq!(id.0, 10);
    assert!(id.is_device());
    assert!(!id.is_reserved());
    assert!(!id.is_default_tcp());
    assert!(!id.is_broadcast());
    assert_eq!(id, SlaveId::from(10));
}

#[test]
fn device() {
    assert!(SlaveId::new(20).is_device())
}

#[test]
fn broadcast() {
    assert!(SlaveId::new(0).is_broadcast());
    assert_eq!(SlaveId::new(0), SlaveId::new_broadcast());
    assert!(SlaveId::new_broadcast().is_broadcast());
}

#[test]
fn tcp() {
    let tcp = SlaveId::new(0xFF);
    assert!(tcp.is_default_tcp() && tcp.is_reserved());

    assert_eq!(tcp, SlaveId::new_default_tcp());

    let tcp = SlaveId::new_default_tcp();
    assert!(tcp.is_default_tcp() && tcp.is_reserved());
}

#[test]
fn all_broadcast() {
    for i in u8::MIN..=u8::MAX {
        assert!(SlaveId::new(i).must_react(SlaveId::new(0)));
        assert!(SlaveId::new(i).must_react(SlaveId::new(i)));
    }
}

#[test]
fn all_device() {
    for i in 1..=247 {
        assert!(SlaveId::new(i).is_device());
        assert!(!SlaveId::new(i).is_reserved());
        assert!(SlaveId::new(i).must_react(SlaveId::new(i)));
    }
}

#[test]
fn all_reserved() {
    for i in 248..=u8::MAX {
        assert!(SlaveId::new(i).is_reserved());
        assert!(!SlaveId::new(i).is_device());
        assert!(SlaveId::new(i).must_react(SlaveId::new(i)));
    }
}

#[test]
fn slaveid_from_data() {
    let data = [7u8, 1, 2];
    let (id, tail) = get_slaveid(&data);
    assert_eq!(id, Some(SlaveId::new(7)));
    assert_eq!(tail, Some(&[1u8, 2] as &[u8]));

    let (id, tail) = SlaveId::from_data(&[]);
    assert_eq!(id, None);
    assert_eq!(tail, None);
}

#[test]
fn slaveid_must_react_only_own_or_broadcast() {
    assert!(SlaveId::new(9).must_react(SlaveId::new_broadcast()));
    assert!(SlaveId::new(9).must_react(SlaveId::new(9)));
    assert!(!SlaveId::new(9).must_react(SlaveId::new(10)));
}
