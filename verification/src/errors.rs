//! The error values that every fallible operation of the library returns.
//!
//! Two kinds of failure exist: an operation that the current backend variant
//! does not support at all (the fixed sentinel messages), and a failure
//! reported by the backend itself while carrying out the operation.  Each
//! backend failure that the mock backend can report gets a variant of its
//! own, so that contracts can name the exact error an operation produces.

use vstd::prelude::*;

verus! {

/// The error type of every fallible operation.
#[derive(Clone, Debug, PartialEq, Eq)]
pub enum BluetoothError {
    /// The compiled build has no working backend for this platform.
    NotSupported,
    /// A test-only operation was invoked on a non-mock backend variant.
    NotSupportedOnReal,
    /// A mock-only constructor was invoked on a non-mock parent handle.
    NotSupportedOnMock,
    /// The mock backend was asked for a property that has never been set.
    ValueNotSet,
    /// The mock device refused to hand out its GATT services while not connected.
    DeviceNotConnected,
    /// The mock device could not be connected: it is not connectable.
    ConnectFailed,
    /// The mock device could not be disconnected: it is not connected.
    DisconnectFailed,
    /// The mock discovery session was not allowed to start discovery.
    StartDiscoveryFailed,
    /// The mock discovery session was not allowed to stop discovery.
    StopDiscoveryFailed,
    /// The stored modalias string does not have the `source:vXXXXpXXXXdXXXX` shape.
    InvalidModalias,
}

impl BluetoothError {
    /// The human-readable text that the error carries.
    pub fn message(&self) -> (r: String)
        ensures
            r@ == self.spec_message(),
    {
        match self {
            BluetoothError::NotSupported => "Error! Not supported platform!".to_owned(),
            BluetoothError::NotSupportedOnReal => "Error! Test functions are not supported on real devices!".to_owned(),
            BluetoothError::NotSupportedOnMock => "Error! The first parameter must be a mock structure!".to_owned(),
            BluetoothError::ValueNotSet => "Could not get the value.".to_owned(),
            BluetoothError::DeviceNotConnected => "Device not connected.".to_owned(),
            BluetoothError::ConnectFailed => "Could not connect to the device.".to_owned(),
            BluetoothError::DisconnectFailed => "The device is not connected.".to_owned(),
            BluetoothError::StartDiscoveryFailed => "Failed to start discovery session".to_owned(),
            BluetoothError::StopDiscoveryFailed => "Failed to stop discovery session".to_owned(),
            BluetoothError::InvalidModalias => "Could not parse the modalias.".to_owned(),
        }
    }

    /// The text of each error, as a sequence of characters.
    pub open spec fn spec_message(&self) -> Seq<char> {
        match self {
            BluetoothError::NotSupported => "Error! Not supported platform!"@,
            BluetoothError::NotSupportedOnReal => "Error! Test functions are not supported on real devices!"@,
            BluetoothError::NotSupportedOnMock => "Error! The first parameter must be a mock structure!"@,
            BluetoothError::ValueNotSet => "Could not get the value."@,
            BluetoothError::DeviceNotConnected => "Device not connected."@,
            BluetoothError::ConnectFailed => "Could not connect to the device."@,
            BluetoothError::DisconnectFailed => "The device is not connected."@,
            BluetoothError::StartDiscoveryFailed => "Failed to start discovery session"@,
            BluetoothError::StopDiscoveryFailed => "Failed to stop discovery session"@,
            BluetoothError::InvalidModalias => "Could not parse the modalias."@,
        }
    }
}

} // verus!
