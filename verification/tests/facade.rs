use device::bluetooth::BluetoothAdapter;
use device::bluetooth::BluetoothDevice;
use device::bluetooth::BluetoothDiscoverySession;
use device::empty::EmptyAdapter;
use device::empty::EmptyDevice;
use device::errors::BluetoothError;

#[test]
fn init_fails_on_unsupported_platform() {
    let r = BluetoothAdapter::init();
    assert_eq!(r.unwrap_err(), BluetoothError::NotSupported);
}

#[test]
fn not_supported_error_carries_the_fixed_message() {
    assert_eq!(
        BluetoothError::NotSupported.message(),
        "Error! Not supported platform!"
    );
    assert_eq!(
        BluetoothError::NotSupportedOnReal.message(),
        "Error! Test functions are not supported on real devices!"
    );
    assert_eq!(
        BluetoothError::NotSupportedOnMock.message(),
        "Error! The first parameter must be a mock structure!"
    );
}

#[test]
fn mock_adapter_starts_in_the_default_state() {
    let adapter = BluetoothAdapter::init_mock().unwrap();
    assert_eq!(adapter.get_id(), "");
    assert_eq!(adapter.is_powered().unwrap(), false);
    assert_eq!(adapter.is_present().unwrap(), true);
    assert_eq!(adapter.is_discoverable().unwrap(), false);
    assert_eq!(adapter.is_pairable().unwrap(), false);
    assert_eq!(adapter.get_pairable_timeout().unwrap(), 0);
    assert_eq!(adapter.get_discoverable_timeout().unwrap(), 0);
    assert_eq!(adapter.is_discovering().unwrap(), false);
    assert_eq!(adapter.get_address().unwrap(), "");
    assert_eq!(adapter.get_name().unwrap(), "");
    assert_eq!(adapter.get_alias().unwrap(), "");
    assert_eq!(adapter.get_class().unwrap(), 0);
    assert_eq!(adapter.get_uuids().unwrap(), Vec::<String>::new());
    assert!(adapter.get_devices().unwrap().is_empty());
}

#[test]
fn mock_adapter_set_powered_round_trip() {
    let mut adapter = BluetoothAdapter::init_mock().unwrap();
    adapter.set_powered(true).unwrap();
    assert_eq!(adapter.is_powered().unwrap(), true);
    adapter.set_powered(false).unwrap();
    assert_eq!(adapter.is_powered().unwrap(), false);
}

#[test]
fn stub_adapter_rejects_test_setters_and_stays_unchanged() {
    let mut adapter = BluetoothAdapter::Empty(EmptyAdapter {});
    let e = adapter.set_powered(true).unwrap_err();
    assert_eq!(e, BluetoothError::NotSupportedOnReal);
    assert_eq!(
        e.message(),
        "Error! Test functions are not supported on real devices!"
    );
    // The stub still reports its own fixed error, whatever was attempted.
    assert_eq!(
        adapter.is_powered().unwrap_err(),
        BluetoothError::NotSupported
    );
    let e = adapter.set_alias("other".to_string()).unwrap_err();
    assert_eq!(e, BluetoothError::NotSupportedOnReal);
    assert_eq!(
        adapter.get_alias().unwrap_err(),
        BluetoothError::NotSupported
    );
}

#[test]
fn mock_adapter_setter_getter_round_trips() {
    let mut adapter = BluetoothAdapter::init_mock().unwrap();
    adapter.set_id("adapter-1".to_string());
    assert_eq!(adapter.get_id(), "adapter-1");
    adapter.set_address("01:02:03:04:05:06".to_string()).unwrap();
    assert_eq!(adapter.get_address().unwrap(), "01:02:03:04:05:06");
    adapter.set_name("radio".to_string()).unwrap();
    assert_eq!(adapter.get_name().unwrap(), "radio");
    adapter.set_alias("my radio".to_string()).unwrap();
    assert_eq!(adapter.get_alias().unwrap(), "my radio");
    adapter.set_class(7936).unwrap();
    assert_eq!(adapter.get_class().unwrap(), 7936);
    adapter.set_present(false).unwrap();
    assert_eq!(adapter.is_present().unwrap(), false);
    adapter.set_discoverable(true).unwrap();
    assert_eq!(adapter.is_discoverable().unwrap(), true);
    adapter.set_pairable(true).unwrap();
    assert_eq!(adapter.is_pairable().unwrap(), true);
    adapter.set_pairable_timeout(90).unwrap();
    assert_eq!(adapter.get_pairable_timeout().unwrap(), 90);
    adapter.set_discoverable_timeout(180).unwrap();
    assert_eq!(adapter.get_discoverable_timeout().unwrap(), 180);
    adapter.set_discovering(true).unwrap();
    assert_eq!(adapter.is_discovering().unwrap(), true);
    adapter
        .set_uuids(vec!["0000180d-0000-1000-8000-00805f9b34fb".to_string()])
        .unwrap();
    assert_eq!(
        adapter.get_uuids().unwrap(),
        vec!["0000180d-0000-1000-8000-00805f9b34fb".to_string()]
    );
    adapter
        .set_ad_datas(vec!["ad-data-1".to_string(), "ad-data-2".to_string()])
        .unwrap();
    assert_eq!(
        adapter.get_ad_datas().unwrap(),
        vec!["ad-data-1".to_string(), "ad-data-2".to_string()]
    );
}

#[test]
fn stub_adapter_set_id_is_ignored() {
    let mut adapter = BluetoothAdapter::Empty(EmptyAdapter {});
    adapter.set_id("ignored".to_string());
    assert_eq!(adapter.get_id(), "");
}

#[test]
fn create_mock_device_keeps_the_parent_variant() {
    let mut adapter = BluetoothAdapter::init_mock().unwrap();
    let device = BluetoothDevice::create_mock_device(&mut adapter, "device-1".to_string()).unwrap();
    assert!(matches!(device, BluetoothDevice::Mock(_)));
    assert_eq!(device.get_id(), "device-1");
}

#[test]
fn create_mock_device_rejects_a_non_mock_adapter() {
    let mut adapter = BluetoothAdapter::Empty(EmptyAdapter {});
    let e = BluetoothDevice::create_mock_device(&mut adapter, "device-1".to_string()).unwrap_err();
    assert_eq!(e, BluetoothError::NotSupportedOnMock);
}

#[test]
fn create_mock_device_returns_the_existing_device_for_a_known_id() {
    let mut adapter = BluetoothAdapter::init_mock().unwrap();
    BluetoothDevice::create_mock_device(&mut adapter, "device-1".to_string()).unwrap();
    if let BluetoothAdapter::Mock(m) = &mut adapter {
        m.devices[0].address = "AA:BB:CC:DD:EE:FF".to_string();
    }
    let again = BluetoothDevice::create_mock_device(&mut adapter, "device-1".to_string()).unwrap();
    assert_eq!(again.get_address().unwrap(), "AA:BB:CC:DD:EE:FF");
    assert_eq!(adapter.get_devices().unwrap().len(), 1);
}

#[test]
fn get_devices_lists_the_registered_devices_in_order() {
    let mut adapter = BluetoothAdapter::init_mock().unwrap();
    BluetoothDevice::create_mock_device(&mut adapter, "device-1".to_string()).unwrap();
    BluetoothDevice::create_mock_device(&mut adapter, "device-2".to_string()).unwrap();
    let devices = adapter.get_devices().unwrap();
    assert_eq!(devices.len(), 2);
    assert_eq!(devices[0].get_id(), "device-1");
    assert_eq!(devices[1].get_id(), "device-2");
    assert!(devices.iter().all(|d| matches!(d, BluetoothDevice::Mock(_))));
}

#[test]
fn get_device_finds_the_first_device_with_the_address() {
    let mut adapter = BluetoothAdapter::init_mock().unwrap();
    BluetoothDevice::create_mock_device(&mut adapter, "device-1".to_string()).unwrap();
    BluetoothDevice::create_mock_device(&mut adapter, "device-2".to_string()).unwrap();
    if let BluetoothAdapter::Mock(m) = &mut adapter {
        m.devices[0].address = "AA:AA:AA:AA:AA:AA".to_string();
        m.devices[1].address = "BB:BB:BB:BB:BB:BB".to_string();
    }
    let found = adapter
        .get_device("BB:BB:BB:BB:BB:BB".to_string())
        .unwrap()
        .expect("the second device should be found");
    assert_eq!(found.get_id(), "device-2");
    assert!(adapter
        .get_device("CC:CC:CC:CC:CC:CC".to_string())
        .unwrap()
        .is_none());
}

#[test]
fn get_device_treats_an_unlistable_backend_as_having_no_devices() {
    let adapter = BluetoothAdapter::Empty(EmptyAdapter {});
    assert_eq!(
        adapter.get_devices().unwrap_err(),
        BluetoothError::NotSupported
    );
    assert!(adapter.get_device("any".to_string()).unwrap().is_none());
}

#[test]
fn discovery_session_follows_the_adapter_permissions() {
    let mut adapter = BluetoothAdapter::init_mock().unwrap();
    let session = adapter.create_discovery_session().unwrap();
    assert!(matches!(session, BluetoothDiscoverySession::Mock(_)));
    session.start_discovery().unwrap();
    session.stop_discovery().unwrap();
    adapter.set_can_start_discovery(false).unwrap();
    adapter.set_can_stop_discovery(false).unwrap();
    let session = adapter.create_discovery_session().unwrap();
    let e = session.start_discovery().unwrap_err();
    assert_eq!(e, BluetoothError::StartDiscoveryFailed);
    assert_eq!(e.message(), "Failed to start discovery session");
    let e = session.stop_discovery().unwrap_err();
    assert_eq!(e, BluetoothError::StopDiscoveryFailed);
    assert_eq!(e.message(), "Failed to stop discovery session");
}

#[test]
fn stub_discovery_session_is_created_but_cannot_discover() {
    let adapter = BluetoothAdapter::Empty(EmptyAdapter {});
    let session = adapter.create_discovery_session().unwrap();
    assert!(matches!(session, BluetoothDiscoverySession::Empty(_)));
    assert_eq!(
        session.start_discovery().unwrap_err(),
        BluetoothError::NotSupported
    );
    assert_eq!(
        session.stop_discovery().unwrap_err(),
        BluetoothError::NotSupported
    );
}

#[test]
fn mock_device_connect_and_disconnect_follow_the_connectable_flag() {
    let mut adapter = BluetoothAdapter::init_mock().unwrap();
    let mut device =
        BluetoothDevice::create_mock_device(&mut adapter, "device-1".to_string()).unwrap();
    let e = device.connect().unwrap_err();
    assert_eq!(e, BluetoothError::ConnectFailed);
    assert_eq!(e.message(), "Could not connect to the device.");
    let e = device.disconnect().unwrap_err();
    assert_eq!(e, BluetoothError::DisconnectFailed);
    assert_eq!(e.message(), "The device is not connected.");
    device.set_connectable(true).unwrap();
    device.connect().unwrap();
    assert_eq!(device.is_connected().unwrap(), true);
    // Connecting an already connected device succeeds and changes nothing.
    device.connect().unwrap();
    assert_eq!(device.is_connected().unwrap(), true);
    device.disconnect().unwrap();
    assert_eq!(device.is_connected().unwrap(), false);
}

#[test]
fn mock_device_pairing_round_trip() {
    let mut adapter = BluetoothAdapter::init_mock().unwrap();
    let mut device =
        BluetoothDevice::create_mock_device(&mut adapter, "device-1".to_string()).unwrap();
    assert_eq!(device.is_paired().unwrap(), false);
    device.pair().unwrap();
    assert_eq!(device.is_paired().unwrap(), true);
    device.cancel_pairing().unwrap();
    assert_eq!(device.is_paired().unwrap(), false);
}

#[test]
fn mock_device_setter_getter_round_trips() {
    let mut adapter = BluetoothAdapter::init_mock().unwrap();
    let mut device =
        BluetoothDevice::create_mock_device(&mut adapter, "device-1".to_string()).unwrap();
    assert_eq!(
        device.get_name().unwrap_err(),
        BluetoothError::ValueNotSet
    );
    device.set_name(Some("headset".to_string())).unwrap();
    assert_eq!(device.get_name().unwrap(), "headset");
    device.set_name(None).unwrap();
    assert_eq!(
        device.get_name().unwrap_err(),
        BluetoothError::ValueNotSet
    );
    assert_eq!(
        device.get_appearance().unwrap_err(),
        BluetoothError::ValueNotSet
    );
    device.set_appearance(961).unwrap();
    assert_eq!(device.get_appearance().unwrap(), 961);
    assert_eq!(device.get_rssi().unwrap_err(), BluetoothError::ValueNotSet);
    device.set_rssi(-42).unwrap();
    assert_eq!(device.get_rssi().unwrap(), -42);
    assert_eq!(
        device.get_tx_power().unwrap_err(),
        BluetoothError::ValueNotSet
    );
    device.set_tx_power(4).unwrap();
    assert_eq!(device.get_tx_power().unwrap(), 4);
    device.set_icon("audio-headset".to_string()).unwrap();
    assert_eq!(device.get_icon().unwrap(), "audio-headset");
    device.set_alias("mine".to_string()).unwrap();
    assert_eq!(device.get_alias().unwrap(), "mine");
    device.set_trusted(true).unwrap();
    assert_eq!(device.is_trusted().unwrap(), true);
    device.set_blocked(true).unwrap();
    assert_eq!(device.is_blocked().unwrap(), true);
    device.set_legacy_pairing(true).unwrap();
    assert_eq!(device.is_legacy_pairing().unwrap(), true);
    assert_eq!(BluetoothError::ValueNotSet.message(), "Could not get the value.");
}

#[test]
fn stub_device_fails_every_operation() {
    let device = BluetoothDevice::Empty(EmptyDevice {});
    assert_eq!(device.get_id(), "");
    assert_eq!(
        device.get_address().unwrap_err(),
        BluetoothError::NotSupported
    );
    assert_eq!(device.get_name().unwrap_err(), BluetoothError::NotSupported);
    assert_eq!(
        device.get_class().unwrap_err(),
        BluetoothError::NotSupported
    );
    assert_eq!(
        device.is_connected().unwrap_err(),
        BluetoothError::NotSupported
    );
    assert_eq!(
        device.get_gatt_services().unwrap_err(),
        BluetoothError::NotSupported
    );
    assert_eq!(
        device.connect_profile("uuid".to_string()).unwrap_err(),
        BluetoothError::NotSupported
    );
    assert_eq!(
        device.disconnect_profile("uuid".to_string()).unwrap_err(),
        BluetoothError::NotSupported
    );
}
