use sigrok::device::{Channel, ChannelGroup, Device, Identity};
use sigrok::util::{c_str, get_functions, null_list_count, AutoDrop};
use sigrok::{Driver, Function, Sigrok, SigrokError};

#[test]
fn null_string_reads_as_empty() {
    assert_eq!(c_str(None), "");
    assert_eq!(c_str(Some(b"")), "");
}

#[test]
fn native_strings_are_decoded() {
    assert_eq!(c_str(Some(b"demo")), "demo");
    assert_eq!(c_str(Some("Demo driver and pattern generator".as_bytes())), "Demo driver and pattern generator");
    assert_eq!(c_str(Some("µV".as_bytes())), "µV");
    // What is no UTF-8 is replaced, not refused.
    assert_eq!(c_str(Some(&[b'a', 0xff, b'b'])), "a\u{fffd}b");
}

#[test]
fn lists_end_at_the_first_null() {
    assert_eq!(null_list_count::<u8>(&[None]), 0);
    assert_eq!(null_list_count(&[Some(1), Some(2), None]), 2);
    assert_eq!(null_list_count(&[Some(1), None, Some(3), None]), 1);
    assert_eq!(null_list_count(&[Some("a"), Some("b"), Some("c"), None]), 3);
}

#[test]
fn functions_from_keys() {
    assert_eq!(
        get_functions(Some(&[10003, 10000, 10001])),
        Ok(vec![Function::DemoDev, Function::LogicAnalyzer, Function::Oscilloscope])
    );
    // Keys that name no function are dropped.
    assert_eq!(
        get_functions(Some(&[30000, 10002, 50001, 20000, 10014, 10015])),
        Ok(vec![Function::Multimeter, Function::PowerMeter])
    );
    assert_eq!(get_functions(Some(&[])), Ok(vec![]));
    assert_eq!(get_functions(None), Err(SigrokError::Generic));
}

#[test]
fn handles_are_released_once() {
    let mut owner = AutoDrop::new(Some(42u32)).unwrap();
    assert!(!owner.is_null());
    assert_eq!(owner.get(), Some(&42));
    assert_eq!(owner.release(), Some(42));
    assert!(owner.is_null());
    assert_eq!(owner.get(), None);
    assert_eq!(owner.release(), None);
    assert_eq!(owner.release(), None);
}

#[test]
fn null_handles() {
    assert_eq!(AutoDrop::<u32>::new(None).unwrap_err(), SigrokError::Arg);
    let mut nothing = AutoDrop::<u32>::null();
    assert!(nothing.is_null());
    assert_eq!(nothing.release(), None);
}

#[test]
fn device_descriptions() {
    let identity = Identity {
        vendor: Some(b"sigrok"),
        model: Some(b"Demo device"),
        version: None,
        serial_number: None,
        conn_id: Some(b"usb/1-2"),
    };
    let names: [&[u8]; 3] = [b"D0", b"D1", b"A0"];
    let channels: Vec<Channel> =
        names.iter().enumerate().map(|(i, n)| Channel::new(i as u32, Some(*n))).collect();
    let groups = vec![ChannelGroup::new(Some(b"Logic")), ChannelGroup::new(None)];
    let device = Device::new(&identity, channels, groups);
    assert_eq!(device.vendor(), "sigrok");
    assert_eq!(device.model(), "Demo device");
    assert_eq!(device.version(), "");
    assert_eq!(device.serial_number(), "");
    assert_eq!(device.conn_id(), "usb/1-2");
    assert_eq!(device.channels().len(), 3);
    assert_eq!(device.channels()[2].name(), "A0");
    assert_eq!(device.channels()[2].index(), 2);
    assert_eq!(device.channel_groups()[0].name(), "Logic");
    assert_eq!(device.channel_groups()[1].name(), "");
    assert_eq!(device.functions(Some(&[10001])), Ok(vec![Function::Oscilloscope]));
    assert_eq!(device.channel_groups()[0].functions(None), Err(SigrokError::Generic));
    assert_eq!(device.channels()[0].enable(), 1);
    assert_eq!(device.channels()[0].disable(), 0);
}

#[test]
fn drivers_up_to_the_closing_null() {
    let ctx = Sigrok::new(0).unwrap();
    let list = vec![
        Some(Driver::new(Some(b"demo"), Some(b"Demo driver and pattern generator"), 1, false)),
        Some(Driver::new(Some(b"fx2lafw"), Some(b"fx2lafw"), 1, false)),
        None,
    ];
    let drivers = ctx.drivers(&list);
    assert_eq!(drivers.len(), 2);
    assert_eq!(drivers[0].name(), "demo");
    assert_eq!(drivers[0].long_name(), "Demo driver and pattern generator");
    assert_eq!(drivers[0].api_version(), 1);
    assert_eq!(drivers[1].name(), "fx2lafw");
    assert!(ctx.drivers(&[None]).is_empty());
}

#[test]
fn context_follows_the_status_code() {
    assert!(Sigrok::new(0).is_ok());
    assert_eq!(Sigrok::new(-2).unwrap_err(), SigrokError::Malloc);
    assert_eq!(Sigrok::new(5).unwrap_err(), SigrokError::Unknown);
    assert!(Sigrok::exited(0));
    assert!(!Sigrok::exited(-1));
}

#[test]
fn driver_is_initialized_once_at_a_time() {
    let driver = Driver::new(Some(b"demo"), Some(b"Demo driver and pattern generator"), 1, false);
    assert!(!driver.initialized());
    let context = driver.init(0).unwrap();
    assert!(context.deref().initialized());
    assert_eq!(context.deref().name(), "demo");
    // After the release the driver can be initialized again.
    let released = context.release();
    assert!(!released.initialized());
    assert_eq!(released.name(), "demo");
    assert_eq!(released.long_name(), "Demo driver and pattern generator");
    let again = released.init(0).unwrap();
    assert!(again.deref().initialized());
}

#[test]
fn driver_initialization_can_fail() {
    let driver = Driver::new(Some(b"demo"), None, 1, false);
    assert_eq!(driver.init(-1).unwrap_err(), SigrokError::Generic);
    assert_eq!(driver.init(-4).unwrap_err(), SigrokError::Bug);
    assert!(!driver.initialized());
}

#[test]
fn second_initialization_names_the_driver() {
    let driver = Driver::new(Some(b"demo"), Some(b"Demo driver and pattern generator"), 1, true);
    assert!(driver.initialized());
    assert_eq!(
        driver.already_initialized(),
        "Driver \"demo\" (Demo driver and pattern generator) already initialized"
    );
    assert_eq!(
        driver.guard_init(),
        Err("Driver \"demo\" (Demo driver and pattern generator) already initialized".to_owned())
    );
    assert_eq!(Driver::new(Some(b"demo"), None, 1, false).guard_init(), Ok(()));
    let nameless = Driver::new(None, None, 0, true);
    assert_eq!(nameless.already_initialized(), "Driver \"\" () already initialized");
}
