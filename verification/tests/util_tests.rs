use sunflower::util::send::{LoadRegisterError, TableDescriptor};
use sunflower::util::sync::{ExclusiveMap, InitError, InitLater, UnsafeFlag, INIT, UNINIT};

/// Tests that `InitLater` can only be initialised once.
#[test]
fn initlater_inits_once() {
    let mut init = InitLater::uninit();
    assert!(init.init(0x42).is_ok());
    assert!(init.init(0x43).is_err())
}

/// Tests that `InitLater` can't be read from before it's initialised.
#[test]
fn initlater_cant_read_before_init() {
    let mut init = InitLater::uninit();
    assert!(init.read().is_err());
    let val = init.init(0x42).unwrap();
    assert_eq!(val, &0x42)
}

/// Tests that `ExclusiveMap` can be written to and read from correctly.
#[test]
fn exmap_works() {
    let mut exmap = ExclusiveMap::new(42);
    exmap.map(|i| *i += 8).unwrap();
    exmap.map(|i| assert_eq!(*i, 50)).unwrap();
}

#[test]
fn initlater_keeps_first_value() {
    let mut init = InitLater::uninit();
    assert_eq!(init.read().unwrap_err().state(), UNINIT);
    init.init(7u8).unwrap();
    let err = init.init(9u8).unwrap_err();
    assert_eq!(err.state(), INIT);
    assert_eq!(err.state_name(), "Initialised");
    assert_eq!(init.read().unwrap(), &7);
}

#[test]
fn init_error_state_names() {
    assert_eq!(InitError::<u8>::new(0).state_name(), "Uninit");
    assert_eq!(InitError::<u8>::new(1).state_name(), "Initialising");
    assert_eq!(InitError::<u8>::new(2).state_name(), "Initialised");
    assert_eq!(InitError::<u8>::new(7).state_name(), "Unknown");
}

#[test]
fn exmap_returns_what_the_function_returns() {
    let mut exmap = ExclusiveMap::new(3u32);
    assert_eq!(exmap.map(|i| *i * 2), Some(6));
}

#[test]
fn unsafe_flag_stores() {
    let mut flag = UnsafeFlag::new(false);
    assert!(!flag.load());
    flag.store(true);
    assert!(flag.load());
}

#[test]
fn table_descriptor_values() {
    let d = TableDescriptor::<u8>::new(40, 0x1000);
    assert_eq!(d.get_size(), 39);
    assert_eq!(d.get_offset(), 0x1000);
    let inv = TableDescriptor::<u8>::invalid();
    assert_eq!(inv.get_size(), 0);
    assert_eq!(inv.get_offset(), 0);
    assert!(TableDescriptor::<u8>::from_raw(39, 0x1000) == d);
    assert!(TableDescriptor::<u8>::from_raw(38, 0x1000) != d);
}

#[test]
fn load_register_error_from_init_error() {
    let e: LoadRegisterError<u8> = InitError::<u8>::new(2).into();
    match e {
        LoadRegisterError::Load(inner) => assert_eq!(inner.state(), 2),
        _ => panic!("expected a load error"),
    }
}

/// A descriptor's text gives its size in decimal and its offset in hex.
#[test]
fn table_descriptor_text() {
    let inv = TableDescriptor::<u8>::invalid();
    assert_eq!(String::from_utf8(inv.text()).unwrap(), "size = 0 & offset = 0x0");
    let d = TableDescriptor::<u8>::from_raw(4095, 0xdead_beef);
    assert_eq!(String::from_utf8(d.text()).unwrap(), "size = 4095 & offset = 0xdeadbeef");
    let u = TableDescriptor::<u8>::uninit();
    assert_eq!(u.get_size(), 0);
    assert_eq!(u.get_offset(), 0);
}
