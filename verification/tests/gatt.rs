use device::bluetooth::BluetoothAdapter;
use device::bluetooth::BluetoothDevice;
use device::bluetooth::BluetoothGATTCharacteristic;
use device::bluetooth::BluetoothGATTDescriptor;
use device::bluetooth::BluetoothGATTService;
use device::empty::EmptyCharacteristic;
use device::empty::EmptyDevice;
use device::empty::EmptyService;
use device::errors::BluetoothError;

fn mock_device() -> BluetoothDevice {
    let mut adapter = BluetoothAdapter::init_mock().unwrap();
    BluetoothDevice::create_mock_device(&mut adapter, "device-1".to_string()).unwrap()
}

#[test]
fn create_mock_service_keeps_the_parent_variant() {
    let mut device = mock_device();
    let service =
        BluetoothGATTService::create_mock_service(&mut device, "service-1".to_string()).unwrap();
    assert!(matches!(service, BluetoothGATTService::Mock(_)));
    assert_eq!(service.get_id(), "service-1");
    assert_eq!(service.is_primary().unwrap(), true);
    assert_eq!(service.get_uuid().unwrap(), "");
}

#[test]
fn create_mock_service_rejects_a_non_mock_device() {
    let mut device = BluetoothDevice::Empty(EmptyDevice {});
    let e = BluetoothGATTService::create_mock_service(&mut device, "service-1".to_string())
        .unwrap_err();
    assert_eq!(e, BluetoothError::NotSupportedOnMock);
}

#[test]
fn gatt_services_are_handed_out_only_while_connected() {
    let mut device = mock_device();
    BluetoothGATTService::create_mock_service(&mut device, "service-1".to_string()).unwrap();
    let e = device.get_gatt_services().unwrap_err();
    assert_eq!(e, BluetoothError::DeviceNotConnected);
    assert_eq!(e.message(), "Device not connected.");
    device.set_connected(true).unwrap();
    let services = device.get_gatt_services().unwrap();
    assert_eq!(services.len(), 1);
    assert_eq!(services[0].get_id(), "service-1");
    assert!(matches!(services[0], BluetoothGATTService::Mock(_)));
}

#[test]
fn service_setter_getter_round_trips() {
    let mut device = mock_device();
    let mut service =
        BluetoothGATTService::create_mock_service(&mut device, "service-1".to_string()).unwrap();
    service.set_id("service-9".to_string());
    assert_eq!(service.get_id(), "service-9");
    service
        .set_uuid("0000180d-0000-1000-8000-00805f9b34fb".to_string())
        .unwrap();
    assert_eq!(
        service.get_uuid().unwrap(),
        "0000180d-0000-1000-8000-00805f9b34fb"
    );
    service.set_primary(false).unwrap();
    assert_eq!(service.is_primary().unwrap(), false);
}

#[test]
fn a_fresh_service_includes_nothing() {
    let device = mock_device();
    let mut other = mock_device();
    let service =
        BluetoothGATTService::create_mock_service(&mut other, "service-1".to_string()).unwrap();
    assert!(service.get_includes(&device).unwrap().is_empty());
}

#[test]
fn stub_service_fails_every_operation() {
    let service = BluetoothGATTService::Empty(EmptyService {});
    assert_eq!(service.get_id(), "");
    assert_eq!(
        service.get_uuid().unwrap_err(),
        BluetoothError::NotSupported
    );
    assert_eq!(
        service.is_primary().unwrap_err(),
        BluetoothError::NotSupported
    );
    assert_eq!(
        service
            .get_includes(&BluetoothDevice::Empty(EmptyDevice {}))
            .unwrap_err(),
        BluetoothError::NotSupported
    );
    assert_eq!(
        service.get_gatt_characteristics().unwrap_err(),
        BluetoothError::NotSupported
    );
}

#[test]
fn create_mock_characteristic_keeps_the_parent_variant() {
    let mut device = mock_device();
    let mut service =
        BluetoothGATTService::create_mock_service(&mut device, "service-1".to_string()).unwrap();
    let characteristic = BluetoothGATTCharacteristic::create_mock_characteristic(
        &mut service,
        "characteristic-1".to_string(),
    )
    .unwrap();
    assert!(matches!(
        characteristic,
        BluetoothGATTCharacteristic::Mock(_)
    ));
    assert_eq!(characteristic.get_id(), "characteristic-1");
    let listed = service.get_gatt_characteristics().unwrap();
    assert_eq!(listed.len(), 1);
    assert_eq!(listed[0].get_id(), "characteristic-1");
}

#[test]
fn create_mock_characteristic_rejects_a_non_mock_service() {
    let mut service = BluetoothGATTService::Empty(EmptyService {});
    let e = BluetoothGATTCharacteristic::create_mock_characteristic(
        &mut service,
        "characteristic-1".to_string(),
    )
    .unwrap_err();
    assert_eq!(e, BluetoothError::NotSupportedOnMock);
}

#[test]
fn characteristic_value_round_trip() {
    let mut device = mock_device();
    let mut service =
        BluetoothGATTService::create_mock_service(&mut device, "service-1".to_string()).unwrap();
    let mut characteristic = BluetoothGATTCharacteristic::create_mock_characteristic(
        &mut service,
        "characteristic-1".to_string(),
    )
    .unwrap();
    assert_eq!(
        characteristic.get_value().unwrap_err(),
        BluetoothError::ValueNotSet
    );
    assert_eq!(
        characteristic.read_value().unwrap_err(),
        BluetoothError::ValueNotSet
    );
    characteristic.write_value(vec![1, 2, 3]).unwrap();
    assert_eq!(characteristic.read_value().unwrap(), vec![1, 2, 3]);
    assert_eq!(characteristic.get_value().unwrap(), vec![1, 2, 3]);
    characteristic.set_value(vec![9]).unwrap();
    assert_eq!(characteristic.get_value().unwrap(), vec![9]);
}

#[test]
fn characteristic_notify_round_trip() {
    let mut device = mock_device();
    let mut service =
        BluetoothGATTService::create_mock_service(&mut device, "service-1".to_string()).unwrap();
    let mut characteristic = BluetoothGATTCharacteristic::create_mock_characteristic(
        &mut service,
        "characteristic-1".to_string(),
    )
    .unwrap();
    assert_eq!(characteristic.is_notifying().unwrap(), false);
    characteristic.start_notify().unwrap();
    assert_eq!(characteristic.is_notifying().unwrap(), true);
    characteristic.stop_notify().unwrap();
    assert_eq!(characteristic.is_notifying().unwrap(), false);
    characteristic
        .set_flags(vec!["read".to_string(), "notify".to_string()])
        .unwrap();
    assert_eq!(
        characteristic.get_flags().unwrap(),
        vec!["read".to_string(), "notify".to_string()]
    );
}

#[test]
fn create_mock_descriptor_keeps_the_parent_variant() {
    let mut device = mock_device();
    let mut service =
        BluetoothGATTService::create_mock_service(&mut device, "service-1".to_string()).unwrap();
    let mut characteristic = BluetoothGATTCharacteristic::create_mock_characteristic(
        &mut service,
        "characteristic-1".to_string(),
    )
    .unwrap();
    let descriptor = BluetoothGATTDescriptor::create_mock_descriptor(
        &mut characteristic,
        "descriptor-1".to_string(),
    )
    .unwrap();
    assert!(matches!(descriptor, BluetoothGATTDescriptor::Mock(_)));
    assert_eq!(descriptor.get_id(), "descriptor-1");
    let listed = characteristic.get_gatt_descriptors().unwrap();
    assert_eq!(listed.len(), 1);
    assert_eq!(listed[0].get_id(), "descriptor-1");
}

#[test]
fn create_mock_descriptor_rejects_a_non_mock_characteristic() {
    let mut characteristic = BluetoothGATTCharacteristic::Empty(EmptyCharacteristic {});
    let e = BluetoothGATTDescriptor::create_mock_descriptor(
        &mut characteristic,
        "descriptor-1".to_string(),
    )
    .unwrap_err();
    assert_eq!(e, BluetoothError::NotSupportedOnMock);
}

#[test]
fn descriptor_value_and_flags_round_trips() {
    let mut device = mock_device();
    let mut service =
        BluetoothGATTService::create_mock_service(&mut device, "service-1".to_string()).unwrap();
    let mut characteristic = BluetoothGATTCharacteristic::create_mock_characteristic(
        &mut service,
        "characteristic-1".to_string(),
    )
    .unwrap();
    let mut descriptor = BluetoothGATTDescriptor::create_mock_descriptor(
        &mut characteristic,
        "descriptor-1".to_string(),
    )
    .unwrap();
    assert_eq!(
        descriptor.get_value().unwrap_err(),
        BluetoothError::ValueNotSet
    );
    descriptor.write_value(vec![7, 8]).unwrap();
    assert_eq!(descriptor.read_value().unwrap(), vec![7, 8]);
    descriptor.set_value(vec![1]).unwrap();
    assert_eq!(descriptor.get_value().unwrap(), vec![1]);
    descriptor.set_uuid("2902".to_string()).unwrap();
    assert_eq!(descriptor.get_uuid().unwrap(), "2902");
    descriptor.set_flags(vec!["write".to_string()]).unwrap();
    assert_eq!(descriptor.get_flags().unwrap(), vec!["write".to_string()]);
    descriptor.set_id("descriptor-2".to_string());
    assert_eq!(descriptor.get_id(), "descriptor-2");
}
