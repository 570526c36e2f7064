//! Holds the library's mock backend against the blurmock fake stack: the
//! same operations, run on both, must report the same values and the same
//! error texts.

use blurmock::fake_adapter::FakeBluetoothAdapter;
use blurmock::fake_device::FakeBluetoothDevice;
use device::bluetooth::BluetoothAdapter;
use device::bluetooth::BluetoothDevice;

#[test]
fn fresh_adapters_agree_on_the_default_state() {
    let fake = FakeBluetoothAdapter::new_empty();
    let ours = BluetoothAdapter::init_mock().unwrap();
    assert_eq!(ours.get_id(), fake.get_id());
    assert_eq!(ours.is_powered().unwrap(), fake.is_powered().unwrap());
    assert_eq!(ours.is_present().unwrap(), fake.is_present().unwrap());
    assert_eq!(
        ours.is_discoverable().unwrap(),
        fake.is_discoverable().unwrap()
    );
    assert_eq!(ours.is_pairable().unwrap(), fake.is_pairable().unwrap());
    assert_eq!(
        ours.get_pairable_timeout().unwrap(),
        fake.get_pairable_timeout().unwrap()
    );
    assert_eq!(
        ours.get_discoverable_timeout().unwrap(),
        fake.get_discoverable_timeout().unwrap()
    );
    assert_eq!(
        ours.is_discovering().unwrap(),
        fake.is_discovering().unwrap()
    );
    assert_eq!(ours.get_address().unwrap(), fake.get_address().unwrap());
    assert_eq!(ours.get_alias().unwrap(), fake.get_alias().unwrap());
    assert_eq!(ours.get_class().unwrap(), fake.get_class().unwrap());
    assert_eq!(ours.get_uuids().unwrap(), fake.get_uuids().unwrap());
}

#[test]
fn adapters_agree_on_an_alias_round_trip() {
    let fake = FakeBluetoothAdapter::new_empty();
    let mut ours = BluetoothAdapter::init_mock().unwrap();
    fake.set_alias("my radio".to_string()).unwrap();
    ours.set_alias("my radio".to_string()).unwrap();
    assert_eq!(ours.get_alias().unwrap(), fake.get_alias().unwrap());
}

#[test]
fn adapters_agree_on_the_parsed_modalias() {
    let fake = FakeBluetoothAdapter::new_empty();
    let mut ours = BluetoothAdapter::init_mock().unwrap();
    fake.set_modalias("usb:v1D6Bp0246d0513".to_string()).unwrap();
    ours.set_modalias("usb:v1D6Bp0246d0513".to_string()).unwrap();
    assert_eq!(ours.get_modalias().unwrap(), fake.get_modalias().unwrap());
    assert_eq!(
        ours.get_vendor_id_source().unwrap(),
        fake.get_vendor_id_source().unwrap()
    );
    assert_eq!(ours.get_vendor_id().unwrap(), fake.get_vendor_id().unwrap());
    assert_eq!(
        ours.get_product_id().unwrap(),
        fake.get_product_id().unwrap()
    );
    assert_eq!(ours.get_device_id().unwrap(), fake.get_device_id().unwrap());
}

#[test]
fn devices_agree_on_the_default_state_and_the_connection_rules() {
    let fake_adapter = FakeBluetoothAdapter::new_empty();
    let fake = FakeBluetoothDevice::new_empty(fake_adapter, "device-1".to_string());
    let mut adapter = BluetoothAdapter::init_mock().unwrap();
    let mut ours =
        BluetoothDevice::create_mock_device(&mut adapter, "device-1".to_string()).unwrap();

    assert_eq!(ours.get_id(), fake.get_id());
    assert_eq!(ours.get_address().unwrap(), fake.get_address().unwrap());
    assert_eq!(ours.is_paired().unwrap(), fake.is_paired().unwrap());
    assert_eq!(ours.is_connected().unwrap(), fake.is_connected().unwrap());

    // Neither device is connectable yet: connecting fails with the same text.
    let fake_err = fake.connect().unwrap_err().to_string();
    let our_err = ours.connect().unwrap_err().message();
    assert_eq!(our_err, fake_err);

    // Disconnecting an unconnected device fails with the same text.
    let fake_err = fake.disconnect().unwrap_err().to_string();
    let our_err = ours.disconnect().unwrap_err().message();
    assert_eq!(our_err, fake_err);

    // Once connectable, both connect and report the connection.
    fake.set_connectable(true).unwrap();
    ours.set_connectable(true).unwrap();
    fake.connect().unwrap();
    ours.connect().unwrap();
    assert_eq!(ours.is_connected().unwrap(), fake.is_connected().unwrap());

    // Both refuse to hand out GATT services once disconnected, alike.
    fake.disconnect().unwrap();
    ours.disconnect().unwrap();
    let fake_err = fake.get_gatt_services().unwrap_err().to_string();
    let our_err = ours.get_gatt_services().unwrap_err().message();
    assert_eq!(our_err, fake_err);
}

#[test]
fn devices_agree_on_unset_optional_values() {
    let fake_adapter = FakeBluetoothAdapter::new_empty();
    let fake = FakeBluetoothDevice::new_empty(fake_adapter, "device-1".to_string());
    let mut adapter = BluetoothAdapter::init_mock().unwrap();
    let ours =
        BluetoothDevice::create_mock_device(&mut adapter, "device-1".to_string()).unwrap();
    assert_eq!(
        ours.get_name().unwrap_err().message(),
        fake.get_name().unwrap_err().to_string()
    );
    assert_eq!(
        ours.get_rssi().unwrap_err().message(),
        fake.get_rssi().unwrap_err().to_string()
    );
    assert_eq!(
        ours.get_tx_power().unwrap_err().message(),
        fake.get_tx_power().unwrap_err().to_string()
    );
}

#[test]
fn discovery_sessions_agree_on_the_permission_flags() {
    let fake = FakeBluetoothAdapter::new_empty();
    let mut ours = BluetoothAdapter::init_mock().unwrap();
    let fake_session = fake.create_discovery_session().unwrap();
    let our_session = ours.create_discovery_session().unwrap();
    assert!(fake_session.start_discovery().is_ok());
    assert!(our_session.start_discovery().is_ok());

    fake.set_can_start_discovery(false).unwrap();
    ours.set_can_start_discovery(false).unwrap();
    let fake_session = fake.create_discovery_session().unwrap();
    let our_session = ours.create_discovery_session().unwrap();
    assert_eq!(
        our_session.start_discovery().unwrap_err().message(),
        fake_session.start_discovery().unwrap_err().to_string()
    );
}
