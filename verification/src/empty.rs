//! The fallback backend for platforms with no working Bluetooth stack.
//!
//! Every operation deterministically fails with the fixed "not supported"
//! error, except the identifier getter (which returns the empty string) and
//! session creation (which yields a session whose operations fail).  This
//! guarantees the facade always has at least one variant to dispatch to, and
//! callers never need to special-case "no backend".

use vstd::prelude::*;
use std::collections::HashMap;
use crate::errors::BluetoothError;

verus! {

/// The local radio of the unsupported-platform backend.
#[derive(Clone, Debug)]
pub struct EmptyAdapter {}

/// A discovery request of the unsupported-platform backend.
#[derive(Clone, Debug)]
pub struct EmptyDiscoverySession {}

/// A remote peer of the unsupported-platform backend.
#[derive(Clone, Debug)]
pub struct EmptyDevice {}

/// A GATT service of the unsupported-platform backend.
#[derive(Clone, Debug)]
pub struct EmptyService {}

/// A GATT characteristic of the unsupported-platform backend.
#[derive(Clone, Debug)]
pub struct EmptyCharacteristic {}

/// A GATT descriptor of the unsupported-platform backend.
#[derive(Clone, Debug)]
pub struct EmptyDescriptor {}

impl EmptyAdapter {
    pub fn init() -> (r: Result<EmptyAdapter, BluetoothError>)
        ensures
            r == Err::<EmptyAdapter, BluetoothError>(BluetoothError::NotSupported),
    {
        Err(BluetoothError::NotSupported)
    }

    pub fn get_id(&self) -> (r: String)
        ensures
            r@ == Seq::<char>::empty(),
    {
        String::new()
    }

    pub fn get_devices(&self) -> (r: Result<Vec<EmptyDevice>, BluetoothError>)
        ensures
            r == Err::<Vec<EmptyDevice>, BluetoothError>(BluetoothError::NotSupported),
    {
        Err(BluetoothError::NotSupported)
    }

    pub fn get_device(&self, _address: String) -> (r: Result<Option<EmptyDevice>, BluetoothError>)
        ensures
            r == Err::<Option<EmptyDevice>, BluetoothError>(BluetoothError::NotSupported),
    {
        Err(BluetoothError::NotSupported)
    }

    pub fn get_address(&self) -> (r: Result<String, BluetoothError>)
        ensures
            r == Err::<String, BluetoothError>(BluetoothError::NotSupported),
    {
        Err(BluetoothError::NotSupported)
    }

    pub fn get_name(&self) -> (r: Result<String, BluetoothError>)
        ensures
            r == Err::<String, BluetoothError>(BluetoothError::NotSupported),
    {
        Err(BluetoothError::NotSupported)
    }

    pub fn get_alias(&self) -> (r: Result<String, BluetoothError>)
        ensures
            r == Err::<String, BluetoothError>(BluetoothError::NotSupported),
    {
        Err(BluetoothError::NotSupported)
    }

    pub fn get_class(&self) -> (r: Result<u32, BluetoothError>)
        ensures
            r == Err::<u32, BluetoothError>(BluetoothError::NotSupported),
    {
        Err(BluetoothError::NotSupported)
    }

    pub fn is_powered(&self) -> (r: Result<bool, BluetoothError>)
        ensures
            r == Err::<bool, BluetoothError>(BluetoothError::NotSupported),
    {
        Err(BluetoothError::NotSupported)
    }

    pub fn is_discoverable(&self) -> (r: Result<bool, BluetoothError>)
        ensures
            r == Err::<bool, BluetoothError>(BluetoothError::NotSupported),
    {
        Err(BluetoothError::NotSupported)
    }

    pub fn is_pairable(&self) -> (r: Result<bool, BluetoothError>)
        ensures
            r == Err::<bool, BluetoothError>(BluetoothError::NotSupported),
    {
        Err(BluetoothError::NotSupported)
    }

    pub fn get_pairable_timeout(&self) -> (r: Result<u32, BluetoothError>)
        ensures
            r == Err::<u32, BluetoothError>(BluetoothError::NotSupported),
    {
        Err(BluetoothError::NotSupported)
    }

    pub fn get_discoverable_timeout(&self) -> (r: Result<u32, BluetoothError>)
        ensures
            r == Err::<u32, BluetoothError>(BluetoothError::NotSupported),
    {
        Err(BluetoothError::NotSupported)
    }

    pub fn is_discovering(&self) -> (r: Result<bool, BluetoothError>)
        ensures
            r == Err::<bool, BluetoothError>(BluetoothError::NotSupported),
    {
        Err(BluetoothError::NotSupported)
    }

    pub fn create_discovery_session(&self) -> (r: Result<EmptyDiscoverySession, BluetoothError>)
        ensures
            r == Err::<EmptyDiscoverySession, BluetoothError>(BluetoothError::NotSupported),
    {
        Err(BluetoothError::NotSupported)
    }

    pub fn get_uuids(&self) -> (r: Result<Vec<String>, BluetoothError>)
        ensures
            r == Err::<Vec<String>, BluetoothError>(BluetoothError::NotSupported),
    {
        Err(BluetoothError::NotSupported)
    }

    pub fn get_vendor_id_source(&self) -> (r: Result<String, BluetoothError>)
        ensures
            r == Err::<String, BluetoothError>(BluetoothError::NotSupported),
    {
        Err(BluetoothError::NotSupported)
    }

    pub fn get_vendor_id(&self) -> (r: Result<u32, BluetoothError>)
        ensures
            r == Err::<u32, BluetoothError>(BluetoothError::NotSupported),
    {
        Err(BluetoothError::NotSupported)
    }

    pub fn get_product_id(&self) -> (r: Result<u32, BluetoothError>)
        ensures
            r == Err::<u32, BluetoothError>(BluetoothError::NotSupported),
    {
        Err(BluetoothError::NotSupported)
    }

    pub fn get_device_id(&self) -> (r: Result<u32, BluetoothError>)
        ensures
            r == Err::<u32, BluetoothError>(BluetoothError::NotSupported),
    {
        Err(BluetoothError::NotSupported)
    }

    pub fn get_modalias(&self) -> (r: Result<(String, u32, u32, u32), BluetoothError>)
        ensures
            r == Err::<(String, u32, u32, u32), BluetoothError>(BluetoothError::NotSupported),
    {
        Err(BluetoothError::NotSupported)
    }
}

impl EmptyDiscoverySession {
    pub fn create_session(_adapter: &EmptyAdapter) -> (r: Result<EmptyDiscoverySession, BluetoothError>)
        ensures
            r == Ok::<EmptyDiscoverySession, BluetoothError>(EmptyDiscoverySession {}),
    {
        Ok(EmptyDiscoverySession {})
    }

    pub fn start_discovery(&self) -> (r: Result<(), BluetoothError>)
        ensures
            r == Err::<(), BluetoothError>(BluetoothError::NotSupported),
    {
        Err(BluetoothError::NotSupported)
    }

    pub fn stop_discovery(&self) -> (r: Result<(), BluetoothError>)
        ensures
            r == Err::<(), BluetoothError>(BluetoothError::NotSupported),
    {
        Err(BluetoothError::NotSupported)
    }
}

impl EmptyDevice {
    pub fn create_device(_adapter: &EmptyAdapter, _device: String) -> (r: EmptyDevice)
        ensures
            r == (EmptyDevice {}),
    {
        EmptyDevice {}
    }

    pub fn get_id(&self) -> (r: String)
        ensures
            r@ == Seq::<char>::empty(),
    {
        String::new()
    }

    pub fn get_address(&self) -> (r: Result<String, BluetoothError>)
        ensures
            r == Err::<String, BluetoothError>(BluetoothError::NotSupported),
    {
        Err(BluetoothError::NotSupported)
    }

    pub fn get_name(&self) -> (r: Result<String, BluetoothError>)
        ensures
            r == Err::<String, BluetoothError>(BluetoothError::NotSupported),
    {
        Err(BluetoothError::NotSupported)
    }

    pub fn get_icon(&self) -> (r: Result<String, BluetoothError>)
        ensures
            r == Err::<String, BluetoothError>(BluetoothError::NotSupported),
    {
        Err(BluetoothError::NotSupported)
    }

    pub fn get_class(&self) -> (r: Result<u32, BluetoothError>)
        ensures
            r == Err::<u32, BluetoothError>(BluetoothError::NotSupported),
    {
        Err(BluetoothError::NotSupported)
    }

    pub fn get_appearance(&self) -> (r: Result<u16, BluetoothError>)
        ensures
            r == Err::<u16, BluetoothError>(BluetoothError::NotSupported),
    {
        Err(BluetoothError::NotSupported)
    }

    pub fn get_uuids(&self) -> (r: Result<Vec<String>, BluetoothError>)
        ensures
            r == Err::<Vec<String>, BluetoothError>(BluetoothError::NotSupported),
    {
        Err(BluetoothError::NotSupported)
    }

    pub fn is_paired(&self) -> (r: Result<bool, BluetoothError>)
        ensures
            r == Err::<bool, BluetoothError>(BluetoothError::NotSupported),
    {
        Err(BluetoothError::NotSupported)
    }

    pub fn is_connected(&self) -> (r: Result<bool, BluetoothError>)
        ensures
            r == Err::<bool, BluetoothError>(BluetoothError::NotSupported),
    {
        Err(BluetoothError::NotSupported)
    }

    pub fn is_trusted(&self) -> (r: Result<bool, BluetoothError>)
        ensures
            r == Err::<bool, BluetoothError>(BluetoothError::NotSupported),
    {
        Err(BluetoothError::NotSupported)
    }

    pub fn is_blocked(&self) -> (r: Result<bool, BluetoothError>)
        ensures
            r == Err::<bool, BluetoothError>(BluetoothError::NotSupported),
    {
        Err(BluetoothError::NotSupported)
    }

    pub fn get_alias(&self) -> (r: Result<String, BluetoothError>)
        ensures
            r == Err::<String, BluetoothError>(BluetoothError::NotSupported),
    {
        Err(BluetoothError::NotSupported)
    }

    pub fn is_legacy_pairing(&self) -> (r: Result<bool, BluetoothError>)
        ensures
            r == Err::<bool, BluetoothError>(BluetoothError::NotSupported),
    {
        Err(BluetoothError::NotSupported)
    }

    pub fn get_vendor_id_source(&self) -> (r: Result<String, BluetoothError>)
        ensures
            r == Err::<String, BluetoothError>(BluetoothError::NotSupported),
    {
        Err(BluetoothError::NotSupported)
    }

    pub fn get_vendor_id(&self) -> (r: Result<u32, BluetoothError>)
        ensures
            r == Err::<u32, BluetoothError>(BluetoothError::NotSupported),
    {
        Err(BluetoothError::NotSupported)
    }

    pub fn get_product_id(&self) -> (r: Result<u32, BluetoothError>)
        ensures
            r == Err::<u32, BluetoothError>(BluetoothError::NotSupported),
    {
        Err(BluetoothError::NotSupported)
    }

    pub fn get_device_id(&self) -> (r: Result<u32, BluetoothError>)
        ensures
            r == Err::<u32, BluetoothError>(BluetoothError::NotSupported),
    {
        Err(BluetoothError::NotSupported)
    }

    pub fn get_modalias(&self) -> (r: Result<(String, u32, u32, u32), BluetoothError>)
        ensures
            r == Err::<(String, u32, u32, u32), BluetoothError>(BluetoothError::NotSupported),
    {
        Err(BluetoothError::NotSupported)
    }

    pub fn get_rssi(&self) -> (r: Result<i16, BluetoothError>)
        ensures
            r == Err::<i16, BluetoothError>(BluetoothError::NotSupported),
    {
        Err(BluetoothError::NotSupported)
    }

    pub fn get_tx_power(&self) -> (r: Result<i16, BluetoothError>)
        ensures
            r == Err::<i16, BluetoothError>(BluetoothError::NotSupported),
    {
        Err(BluetoothError::NotSupported)
    }

    pub fn get_manufacturer_data(&self) -> (r: Result<HashMap<u16, Vec<u8>>, BluetoothError>)
        ensures
            r == Err::<HashMap<u16, Vec<u8>>, BluetoothError>(BluetoothError::NotSupported),
    {
        Err(BluetoothError::NotSupported)
    }

    pub fn get_service_data(&self) -> (r: Result<HashMap<String, Vec<u8>>, BluetoothError>)
        ensures
            r == Err::<HashMap<String, Vec<u8>>, BluetoothError>(BluetoothError::NotSupported),
    {
        Err(BluetoothError::NotSupported)
    }

    pub fn get_gatt_services(&self) -> (r: Result<Vec<EmptyService>, BluetoothError>)
        ensures
            r == Err::<Vec<EmptyService>, BluetoothError>(BluetoothError::NotSupported),
    {
        Err(BluetoothError::NotSupported)
    }

    pub fn connect(&self) -> (r: Result<(), BluetoothError>)
        ensures
            r == Err::<(), BluetoothError>(BluetoothError::NotSupported),
    {
        Err(BluetoothError::NotSupported)
    }

    pub fn disconnect(&self) -> (r: Result<(), BluetoothError>)
        ensures
            r == Err::<(), BluetoothError>(BluetoothError::NotSupported),
    {
        Err(BluetoothError::NotSupported)
    }

    pub fn connect_profile(&self, _uuid: String) -> (r: Result<(), BluetoothError>)
        ensures
            r == Err::<(), BluetoothError>(BluetoothError::NotSupported),
    {
        Err(BluetoothError::NotSupported)
    }

    pub fn disconnect_profile(&self, _uuid: String) -> (r: Result<(), BluetoothError>)
        ensures
            r == Err::<(), BluetoothError>(BluetoothError::NotSupported),
    {
        Err(BluetoothError::NotSupported)
    }

    pub fn pair(&self) -> (r: Result<(), BluetoothError>)
        ensures
            r == Err::<(), BluetoothError>(BluetoothError::NotSupported),
    {
        Err(BluetoothError::NotSupported)
    }

    pub fn cancel_pairing(&self) -> (r: Result<(), BluetoothError>)
        ensures
            r == Err::<(), BluetoothError>(BluetoothError::NotSupported),
    {
        Err(BluetoothError::NotSupported)
    }
}

impl EmptyService {
    pub fn create_service(_device: &EmptyDevice, _service: String) -> (r: EmptyService)
        ensures
            r == (EmptyService {}),
    {
        EmptyService {}
    }

    pub fn get_id(&self) -> (r: String)
        ensures
            r@ == Seq::<char>::empty(),
    {
        String::new()
    }

    pub fn get_uuid(&self) -> (r: Result<String, BluetoothError>)
        ensures
            r == Err::<String, BluetoothError>(BluetoothError::NotSupported),
    {
        Err(BluetoothError::NotSupported)
    }

    pub fn is_primary(&self) -> (r: Result<bool, BluetoothError>)
        ensures
            r == Err::<bool, BluetoothError>(BluetoothError::NotSupported),
    {
        Err(BluetoothError::NotSupported)
    }

    pub fn get_includes(&self, _device: &EmptyDevice) -> (r: Result<Vec<EmptyService>, BluetoothError>)
        ensures
            r == Err::<Vec<EmptyService>, BluetoothError>(BluetoothError::NotSupported),
    {
        Err(BluetoothError::NotSupported)
    }

    pub fn get_gatt_characteristics(&self) -> (r: Result<Vec<EmptyCharacteristic>, BluetoothError>)
        ensures
            r == Err::<Vec<EmptyCharacteristic>, BluetoothError>(BluetoothError::NotSupported),
    {
        Err(BluetoothError::NotSupported)
    }
}

impl EmptyCharacteristic {
    pub fn create_characteristic(_service: &EmptyService, _characteristic: String) -> (r: EmptyCharacteristic)
        ensures
            r == (EmptyCharacteristic {}),
    {
        EmptyCharacteristic {}
    }

    pub fn get_id(&self) -> (r: String)
        ensures
            r@ == Seq::<char>::empty(),
    {
        String::new()
    }

    pub fn get_uuid(&self) -> (r: Result<String, BluetoothError>)
        ensures
            r == Err::<String, BluetoothError>(BluetoothError::NotSupported),
    {
        Err(BluetoothError::NotSupported)
    }

    pub fn get_value(&self) -> (r: Result<Vec<u8>, BluetoothError>)
        ensures
            r == Err::<Vec<u8>, BluetoothError>(BluetoothError::NotSupported),
    {
        Err(BluetoothError::NotSupported)
    }

    pub fn is_notifying(&self) -> (r: Result<bool, BluetoothError>)
        ensures
            r == Err::<bool, BluetoothError>(BluetoothError::NotSupported),
    {
        Err(BluetoothError::NotSupported)
    }

    pub fn get_flags(&self) -> (r: Result<Vec<String>, BluetoothError>)
        ensures
            r == Err::<Vec<String>, BluetoothError>(BluetoothError::NotSupported),
    {
        Err(BluetoothError::NotSupported)
    }

    pub fn get_gatt_descriptors(&self) -> (r: Result<Vec<EmptyDescriptor>, BluetoothError>)
        ensures
            r == Err::<Vec<EmptyDescriptor>, BluetoothError>(BluetoothError::NotSupported),
    {
        Err(BluetoothError::NotSupported)
    }

    pub fn read_value(&self) -> (r: Result<Vec<u8>, BluetoothError>)
        ensures
            r == Err::<Vec<u8>, BluetoothError>(BluetoothError::NotSupported),
    {
        Err(BluetoothError::NotSupported)
    }

    pub fn write_value(&self, _values: Vec<u8>) -> (r: Result<(), BluetoothError>)
        ensures
            r == Err::<(), BluetoothError>(BluetoothError::NotSupported),
    {
        Err(BluetoothError::NotSupported)
    }

    pub fn start_notify(&self) -> (r: Result<(), BluetoothError>)
        ensures
            r == Err::<(), BluetoothError>(BluetoothError::NotSupported),
    {
        Err(BluetoothError::NotSupported)
    }

    pub fn stop_notify(&self) -> (r: Result<(), BluetoothError>)
        ensures
            r == Err::<(), BluetoothError>(BluetoothError::NotSupported),
    {
        Err(BluetoothError::NotSupported)
    }
}

impl EmptyDescriptor {
    pub fn create_descriptor(_characteristic: &EmptyCharacteristic, _descriptor: String) -> (r: EmptyDescriptor)
        ensures
            r == (EmptyDescriptor {}),
    {
        EmptyDescriptor {}
    }

    pub fn get_id(&self) -> (r: String)
        ensures
            r@ == Seq::<char>::empty(),
    {
        String::new()
    }

    pub fn get_uuid(&self) -> (r: Result<String, BluetoothError>)
        ensures
            r == Err::<String, BluetoothError>(BluetoothError::NotSupported),
    {
        Err(BluetoothError::NotSupported)
    }

    pub fn get_value(&self) -> (r: Result<Vec<u8>, BluetoothError>)
        ensures
            r == Err::<Vec<u8>, BluetoothError>(BluetoothError::NotSupported),
    {
        Err(BluetoothError::NotSupported)
    }

    pub fn get_flags(&self) -> (r: Result<Vec<String>, BluetoothError>)
        ensures
            r == Err::<Vec<String>, BluetoothError>(BluetoothError::NotSupported),
    {
        Err(BluetoothError::NotSupported)
    }

    pub fn read_value(&self) -> (r: Result<Vec<u8>, BluetoothError>)
        ensures
            r == Err::<Vec<u8>, BluetoothError>(BluetoothError::NotSupported),
    {
        Err(BluetoothError::NotSupported)
    }

    pub fn write_value(&self, _values: Vec<u8>) -> (r: Result<(), BluetoothError>)
        ensures
            r == Err::<(), BluetoothError>(BluetoothError::NotSupported),
    {
        Err(BluetoothError::NotSupported)
    }
}

} // verus!
