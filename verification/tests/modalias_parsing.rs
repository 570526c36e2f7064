use device::bluetooth::BluetoothAdapter;
use device::bluetooth::BluetoothDevice;
use device::errors::BluetoothError;
use device::modalias::parse_modalias;

#[test]
fn parse_modalias_splits_a_usb_modalias() {
    let (source, vendor, product, device_id) =
        parse_modalias(&"usb:v1D6Bp0246d0513".to_string()).unwrap();
    assert_eq!(source, "usb");
    assert_eq!(vendor, 0x1D6B);
    assert_eq!(product, 0x0246);
    assert_eq!(device_id, 0x0513);
}

#[test]
fn parse_modalias_reads_the_segment_between_the_first_two_colons() {
    let (source, vendor, product, device_id) =
        parse_modalias(&"bluetooth:v001Dp1200d1436:extra".to_string()).unwrap();
    assert_eq!(source, "bluetooth");
    assert_eq!(vendor, 0x001D);
    assert_eq!(product, 0x1200);
    assert_eq!(device_id, 0x1436);
}

#[test]
fn parse_modalias_accepts_lower_case_hexadecimal_digits() {
    let (_, vendor, product, device_id) =
        parse_modalias(&"usb:vabcdpef01d0a0b".to_string()).unwrap();
    assert_eq!(vendor, 0xABCD);
    assert_eq!(product, 0xEF01);
    assert_eq!(device_id, 0x0A0B);
}

#[test]
fn parse_modalias_rejects_malformed_strings() {
    for bad in [
        "",
        "usb",
        "usb:",
        "usb:v1D6B",
        "usb:v1D6Bp0246d051",
        "usb:vXXXXp0246d0513",
        "usb:v1D6Bp024Gd0513",
    ] {
        let e = parse_modalias(&bad.to_string()).unwrap_err();
        assert_eq!(e, BluetoothError::InvalidModalias, "input: {bad:?}");
    }
}

#[test]
fn adapter_modalias_round_trip() {
    let mut adapter = BluetoothAdapter::init_mock().unwrap();
    adapter
        .set_modalias("usb:v1D6Bp0246d0513".to_string())
        .unwrap();
    let (source, vendor, product, device_id) = adapter.get_modalias().unwrap();
    assert_eq!(source, "usb");
    assert_eq!(vendor, 7531);
    assert_eq!(product, 582);
    assert_eq!(device_id, 1299);
    assert_eq!(adapter.get_vendor_id_source().unwrap(), "usb");
    assert_eq!(adapter.get_vendor_id().unwrap(), 7531);
    assert_eq!(adapter.get_product_id().unwrap(), 582);
    assert_eq!(adapter.get_device_id().unwrap(), 1299);
}

#[test]
fn adapter_modalias_defaults_to_unparseable() {
    let adapter = BluetoothAdapter::init_mock().unwrap();
    assert_eq!(
        adapter.get_modalias().unwrap_err(),
        BluetoothError::InvalidModalias
    );
    assert_eq!(
        adapter.get_vendor_id().unwrap_err(),
        BluetoothError::InvalidModalias
    );
}

#[test]
fn device_modalias_round_trip() {
    let mut adapter = BluetoothAdapter::init_mock().unwrap();
    let mut device =
        BluetoothDevice::create_mock_device(&mut adapter, "device-1".to_string()).unwrap();
    device
        .set_modalias("bluetooth:v000Fp1200d1436".to_string())
        .unwrap();
    let (source, vendor, product, device_id) = device.get_modalias().unwrap();
    assert_eq!(source, "bluetooth");
    assert_eq!(vendor, 0x000F);
    assert_eq!(product, 0x1200);
    assert_eq!(device_id, 0x1436);
    assert_eq!(device.get_vendor_id_source().unwrap(), "bluetooth");
    assert_eq!(device.get_vendor_id().unwrap(), 0x000F);
    assert_eq!(device.get_product_id().unwrap(), 0x1200);
    assert_eq!(device.get_device_id().unwrap(), 0x1436);
}
