//! The backend-family abstraction: one marker trait per entity, and one
//! trait tying a whole backend's entity types together.
//!
//! A backend family implements [`Bluetooth`] by naming its adapter, session,
//! device, service, characteristic and descriptor types, each of which
//! carries the matching entity marker for that family.  Binding all six
//! types to one family makes it a type error to mix entities of different
//! backends, which is the same rule the facade's constructors keep at the
//! level of handle variants.

use vstd::prelude::*;
use crate::empty::EmptyAdapter;
use crate::empty::EmptyCharacteristic;
use crate::empty::EmptyDescriptor;
use crate::empty::EmptyDevice;
use crate::empty::EmptyDiscoverySession;
use crate::empty::EmptyService;
use crate::mock::MockAdapter;
use crate::mock::MockCharacteristic;
use crate::mock::MockDescriptor;
use crate::mock::MockDevice;
use crate::mock::MockDiscoverySession;
use crate::mock::MockService;

verus! {

/// Marks a type as the adapter of the backend family `B`.
pub trait Adapter<B> {

}

/// Marks a type as the discovery session of the backend family `B`.
pub trait DiscoverySession<B> {

}

/// Marks a type as the remote device of the backend family `B`.
pub trait Device<B> {

}

/// Marks a type as the GATT service of the backend family `B`.
pub trait Service<B> {

}

/// Marks a type as the GATT characteristic of the backend family `B`.
pub trait Characteristic<B> {

}

/// Marks a type as the GATT descriptor of the backend family `B`.
pub trait Descriptor<B> {

}

/// A backend family: the six entity types of one backend, bound together so
/// that entities of different backends cannot be mixed.
pub trait Bluetooth: Sized + Send + Sync {
    type Adapter: Adapter<Self>;

    type DiscoverySession: DiscoverySession<Self>;

    type Device: Device<Self>;

    type GATTService: Service<Self>;

    type GATTCharacteristic: Characteristic<Self>;

    type GATTDescriptor: Descriptor<Self>;
}

/// The backend family of the unsupported-platform stub.
pub struct EmptyBluetooth {}

impl Bluetooth for EmptyBluetooth {
    type Adapter = EmptyAdapter;

    type DiscoverySession = EmptyDiscoverySession;

    type Device = EmptyDevice;

    type GATTService = EmptyService;

    type GATTCharacteristic = EmptyCharacteristic;

    type GATTDescriptor = EmptyDescriptor;
}

impl Adapter<EmptyBluetooth> for EmptyAdapter {

}

impl DiscoverySession<EmptyBluetooth> for EmptyDiscoverySession {

}

impl Device<EmptyBluetooth> for EmptyDevice {

}

impl Service<EmptyBluetooth> for EmptyService {

}

impl Characteristic<EmptyBluetooth> for EmptyCharacteristic {

}

impl Descriptor<EmptyBluetooth> for EmptyDescriptor {

}

/// The backend family of the mock stack.
pub struct MockBluetooth {}

impl Bluetooth for MockBluetooth {
    type Adapter = MockAdapter;

    type DiscoverySession = MockDiscoverySession;

    type Device = MockDevice;

    type GATTService = MockService;

    type GATTCharacteristic = MockCharacteristic;

    type GATTDescriptor = MockDescriptor;
}

impl Adapter<MockBluetooth> for MockAdapter {

}

impl DiscoverySession<MockBluetooth> for MockDiscoverySession {

}

impl Device<MockBluetooth> for MockDevice {

}

impl Service<MockBluetooth> for MockService {

}

impl Characteristic<MockBluetooth> for MockCharacteristic {

}

impl Descriptor<MockBluetooth> for MockDescriptor {

}

} // verus!
