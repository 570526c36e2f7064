//! The uniform Bluetooth API: one handle type per entity, dispatching to
//! whichever backend variant the handle wraps.
//!
//! On this build two backend variants exist: the unsupported-platform stub,
//! whose every operation fails with the fixed "not supported" error, and the
//! mock backend, whose state is plain data held by the handle itself.  Every
//! constructor derives the child handle's variant from the parent handle's
//! variant, so a mock adapter only ever yields mock devices, and a stub
//! adapter only stub devices.
//!
//! Operations that exist solely to drive the mock backend in tests (the
//! setters, and the mock-only constructors) reject a non-mock handle with the
//! fixed "not supported on real devices" or "must be a mock structure" error
//! and change nothing.

use vstd::prelude::*;
use vstd::pervasive::arbitrary;
use crate::empty::EmptyAdapter;
use crate::empty::EmptyCharacteristic;
use crate::empty::EmptyDescriptor;
use crate::empty::EmptyDevice;
use crate::empty::EmptyDiscoverySession;
use crate::empty::EmptyService;
use crate::errors::BluetoothError;
use crate::mock::MockAdapter;
use crate::mock::MockAdapterView;
use crate::mock::MockCharacteristic;
use crate::mock::MockCharacteristicView;
use crate::mock::MockDescriptor;
use crate::mock::MockDescriptorView;
use crate::mock::MockDevice;
use crate::mock::MockDeviceView;
use crate::mock::MockDiscoverySession;
use crate::mock::MockService;
use crate::mock::MockServiceView;
use crate::mock::clone_byte_vec;
use crate::mock::clone_string_vec;
use crate::mock::find_device_by_address;
use crate::mock::find_device_by_id;
use crate::mock::adapter_new_empty_view;
use crate::mock::device_new_empty_view;
use crate::mock::service_new_empty_view;
use crate::mock::characteristic_new_empty_view;
use crate::mock::descriptor_new_empty_view;
use crate::mock::find_service_by_id;
use crate::mock::find_characteristic_by_id;
use crate::mock::find_descriptor_by_id;
use crate::modalias::modalias_device;
use crate::modalias::modalias_product;
use crate::modalias::modalias_source;
use crate::modalias::modalias_vendor;
use crate::modalias::modalias_well_formed;
use crate::modalias::parse_modalias;

verus! {

/// A handle to a local Bluetooth adapter of the active backend.
#[derive(Clone, Debug)]
pub enum BluetoothAdapter {
    Empty(EmptyAdapter),
    Mock(MockAdapter),
}

/// A handle to a device-discovery session of the active backend.
#[derive(Clone, Debug)]
pub enum BluetoothDiscoverySession {
    Empty(EmptyDiscoverySession),
    Mock(MockDiscoverySession),
}

/// A handle to a remote Bluetooth device of the active backend.
#[derive(Clone, Debug)]
pub enum BluetoothDevice {
    Empty(EmptyDevice),
    Mock(MockDevice),
}

/// A handle to a GATT service of the active backend.
#[derive(Clone, Debug)]
pub enum BluetoothGATTService {
    Empty(EmptyService),
    Mock(MockService),
}

/// A handle to a GATT characteristic of the active backend.
#[derive(Clone, Debug)]
pub enum BluetoothGATTCharacteristic {
    Empty(EmptyCharacteristic),
    Mock(MockCharacteristic),
}

/// A handle to a GATT descriptor of the active backend.
#[derive(Clone, Debug)]
pub enum BluetoothGATTDescriptor {
    Empty(EmptyDescriptor),
    Mock(MockDescriptor),
}

impl BluetoothAdapter {
    /// Whether the handle wraps the mock backend.
    pub open spec fn is_mock(&self) -> bool {
        match self {
            BluetoothAdapter::Mock(_) => true,
            _ => false,
        }
    }

    /// The state of the wrapped mock adapter.
    pub open spec fn mock_view(&self) -> MockAdapterView {
        match self {
            BluetoothAdapter::Mock(m) => m@,
            _ => arbitrary(),
        }
    }
}

impl BluetoothDiscoverySession {
    /// Whether the handle wraps the mock backend.
    pub open spec fn is_mock(&self) -> bool {
        match self {
            BluetoothDiscoverySession::Mock(_) => true,
            _ => false,
        }
    }

    /// The state of the wrapped mock session.
    pub open spec fn mock_session(&self) -> MockDiscoverySession {
        match self {
            BluetoothDiscoverySession::Mock(s) => *s,
            _ => arbitrary(),
        }
    }
}

impl BluetoothDevice {
    /// Whether the handle wraps the mock backend.
    pub open spec fn is_mock(&self) -> bool {
        match self {
            BluetoothDevice::Mock(_) => true,
            _ => false,
        }
    }

    /// The state of the wrapped mock device.
    pub open spec fn mock_view(&self) -> MockDeviceView {
        match self {
            BluetoothDevice::Mock(m) => m@,
            _ => arbitrary(),
        }
    }
}

impl BluetoothGATTService {
    /// Whether the handle wraps the mock backend.
    pub open spec fn is_mock(&self) -> bool {
        match self {
            BluetoothGATTService::Mock(_) => true,
            _ => false,
        }
    }

    /// The state of the wrapped mock service.
    pub open spec fn mock_view(&self) -> MockServiceView {
        match self {
            BluetoothGATTService::Mock(m) => m@,
            _ => arbitrary(),
        }
    }
}

impl BluetoothGATTCharacteristic {
    /// Whether the handle wraps the mock backend.
    pub open spec fn is_mock(&self) -> bool {
        match self {
            BluetoothGATTCharacteristic::Mock(_) => true,
            _ => false,
        }
    }

    /// The state of the wrapped mock characteristic.
    pub open spec fn mock_view(&self) -> MockCharacteristicView {
        match self {
            BluetoothGATTCharacteristic::Mock(m) => m@,
            _ => arbitrary(),
        }
    }
}

impl BluetoothGATTDescriptor {
    /// Whether the handle wraps the mock backend.
    pub open spec fn is_mock(&self) -> bool {
        match self {
            BluetoothGATTDescriptor::Mock(_) => true,
            _ => false,
        }
    }

    /// The state of the wrapped mock descriptor.
    pub open spec fn mock_view(&self) -> MockDescriptorView {
        match self {
            BluetoothGATTDescriptor::Mock(m) => m@,
            _ => arbitrary(),
        }
    }
}

impl BluetoothAdapter {
    /// The adapter of the platform's real backend.  This build has no
    /// working real backend, so initialisation always fails with the fixed
    /// "not supported" error.
    pub fn init() -> (r: Result<BluetoothAdapter, BluetoothError>)
        ensures
            r == Err::<BluetoothAdapter, BluetoothError>(BluetoothError::NotSupported),
    {
        let adapter = match EmptyAdapter::init() {
            Ok(a) => a,
            Err(e) => {
                return Err(e);
            },
        };
        Ok(BluetoothAdapter::Empty(adapter))
    }

    /// A fresh mock adapter holding the default mock state.
    pub fn init_mock() -> (r: Result<BluetoothAdapter, BluetoothError>)
        ensures
            r matches Ok(a) && a.is_mock() && a.mock_view() == adapter_new_empty_view(),
    {
        Ok(BluetoothAdapter::Mock(MockAdapter::new_empty()))
    }

    /// The adapter's identifier; the stub backend has the empty identifier.
    pub fn get_id(&self) -> (r: String)
        ensures
            self.is_mock() ==> r@ == self.mock_view().id,
            !self.is_mock() ==> r@ == Seq::<char>::empty(),
    {
        match self {
            BluetoothAdapter::Empty(adapter) => adapter.get_id(),
            BluetoothAdapter::Mock(m) => m.id.clone(),
        }
    }

    /// Sets the mock adapter's identifier; on a non-mock handle the call is
    /// silently ignored.
    pub fn set_id(&mut self, id: String)
        ensures
            old(self).is_mock() ==> final(self).is_mock() && final(self).mock_view()
                == (MockAdapterView { id: id@, ..old(self).mock_view() }),
            !old(self).is_mock() ==> *final(self) == *old(self),
    {
        match self {
            BluetoothAdapter::Mock(m) => {
                m.id = id;
            },
            _ => {},
        }
    }

    /// One handle per device the adapter knows, each of the adapter's own
    /// backend variant.
    pub fn get_devices(&self) -> (r: Result<Vec<BluetoothDevice>, BluetoothError>)
        ensures
            self.is_mock() ==> (r matches Ok(devs) && devs@.len()
                == self.mock_view().devices.len() && (forall|i: int|
                0 <= i < devs@.len() ==> (#[trigger] devs@[i]).is_mock() && devs@[i].mock_view()
                    == self.mock_view().devices[i])),
            !self.is_mock() ==> r == Err::<Vec<BluetoothDevice>, BluetoothError>(
                BluetoothError::NotSupported,
            ),
    {
        match self {
            BluetoothAdapter::Empty(adapter) => match adapter.get_devices() {
                Ok(_) => Ok(Vec::new()),
                Err(e) => Err(e),
            },
            BluetoothAdapter::Mock(m) => {
                let mut devs: Vec<BluetoothDevice> = Vec::new();
                let mut i: usize = 0;
                while i < m.devices.len()
                    invariant
                        i <= m.devices.len(),
                        devs@.len() == i,
                        forall|j: int|
                            0 <= j < i ==> (#[trigger] devs@[j]).is_mock() && devs@[j].mock_view()
                                == m@.devices[j],
                    decreases m.devices.len() - i,
                {
                    devs.push(BluetoothDevice::Mock(m.devices[i].duplicate()));
                    i += 1;
                }
                Ok(devs)
            },
        }
    }

    /// The first known device with the given address, or nothing when no
    /// device has it; a backend that cannot list devices counts as having
    /// none.
    pub fn get_device(&self, address: String) -> (r: Result<
        Option<BluetoothDevice>,
        BluetoothError,
    >)
        ensures
            self.is_mock() ==> ({
                let idx = find_device_by_address(self.mock_view().devices, address@, 0);
                if idx >= 0 {
                    r matches Ok(o) && o matches Some(d) && d.is_mock() && d.mock_view()
                        == self.mock_view().devices[idx]
                } else {
                    r == Ok::<Option<BluetoothDevice>, BluetoothError>(None)
                }
            }),
            !self.is_mock() ==> r == Ok::<Option<BluetoothDevice>, BluetoothError>(None),
    {
        let mut devices = match self.get_devices() {
            Ok(devs) => devs,
            Err(_) => {
                return Ok(None);
            },
        };
        let ghost devs_view = self.mock_view().devices;
        let n = devices.len();
        let mut i: usize = 0;
        while i < n
            invariant
                i <= n,
                self.is_mock(),
                devs_view == self.mock_view().devices,
                n == devices@.len(),
                n == devs_view.len(),
                forall|j: int|
                    0 <= j < n ==> (#[trigger] devices@[j]).is_mock() && devices@[j].mock_view()
                        == devs_view[j],
                find_device_by_address(devs_view, address@, 0) == find_device_by_address(
                    devs_view,
                    address@,
                    i as int,
                ),
            decreases n - i,
        {
            let matches_address = match &devices[i] {
                BluetoothDevice::Mock(m) => m.address == address,
                _ => false,
            };
            if matches_address {
                proof {
                    assert(devices@[i as int].is_mock() && devices@[i as int].mock_view()
                        == devs_view[i as int]);
                    assert(devs_view[i as int].address == address@);
                    assert(find_device_by_address(devs_view, address@, i as int) == i as int);
                }
                let ghost pre = devices@;
                let d = devices.remove(i);
                proof {
                    assert(d == pre[i as int]);
                    assert(find_device_by_address(devs_view, address@, 0) == i as int);
                    assert(d.mock_view() == devs_view[i as int]);
                }
                return Ok(Some(d));
            }
            i += 1;
        }
        Ok(None)
    }

    /// The adapter's address.
    pub fn get_address(&self) -> (r: Result<String, BluetoothError>)
        ensures
            self.is_mock() ==> (r matches Ok(s) && s@ == self.mock_view().address),
            !self.is_mock() ==> r == Err::<String, BluetoothError>(BluetoothError::NotSupported),
    {
        match self {
            BluetoothAdapter::Empty(adapter) => adapter.get_address(),
            BluetoothAdapter::Mock(m) => Ok(m.address.clone()),
        }
    }

    /// Sets the mock adapter's address; a test-only operation that a
    /// non-mock handle rejects.
    pub fn set_address(&mut self, address: String) -> (r: Result<(), BluetoothError>)
        ensures
            old(self).is_mock() ==> (r == Ok::<(), BluetoothError>(()) && final(self).is_mock()
                && final(self).mock_view() == (MockAdapterView {
                address: address@,
                ..old(self).mock_view()
            })),
            !old(self).is_mock() ==> (r == Err::<(), BluetoothError>(
                BluetoothError::NotSupportedOnReal,
            ) && *final(self) == *old(self)),
    {
        match self {
            BluetoothAdapter::Mock(m) => {
                m.address = address;
                Ok(())
            },
            _ => Err(BluetoothError::NotSupportedOnReal),
        }
    }

    /// The adapter's name.
    pub fn get_name(&self) -> (r: Result<String, BluetoothError>)
        ensures
            self.is_mock() ==> (r matches Ok(s) && s@ == self.mock_view().name),
            !self.is_mock() ==> r == Err::<String, BluetoothError>(BluetoothError::NotSupported),
    {
        match self {
            BluetoothAdapter::Empty(adapter) => adapter.get_name(),
            BluetoothAdapter::Mock(m) => Ok(m.name.clone()),
        }
    }

    /// Sets the mock adapter's name; a test-only operation that a non-mock
    /// handle rejects.
    pub fn set_name(&mut self, name: String) -> (r: Result<(), BluetoothError>)
        ensures
            old(self).is_mock() ==> (r == Ok::<(), BluetoothError>(()) && final(self).is_mock()
                && final(self).mock_view() == (MockAdapterView {
                name: name@,
                ..old(self).mock_view()
            })),
            !old(self).is_mock() ==> (r == Err::<(), BluetoothError>(
                BluetoothError::NotSupportedOnReal,
            ) && *final(self) == *old(self)),
    {
        match self {
            BluetoothAdapter::Mock(m) => {
                m.name = name;
                Ok(())
            },
            _ => Err(BluetoothError::NotSupportedOnReal),
        }
    }

    /// The adapter's alias.
    pub fn get_alias(&self) -> (r: Result<String, BluetoothError>)
        ensures
            self.is_mock() ==> (r matches Ok(s) && s@ == self.mock_view().alias),
            !self.is_mock() ==> r == Err::<String, BluetoothError>(BluetoothError::NotSupported),
    {
        match self {
            BluetoothAdapter::Empty(adapter) => adapter.get_alias(),
            BluetoothAdapter::Mock(m) => Ok(m.alias.clone()),
        }
    }

    /// Sets the mock adapter's alias; a test-only operation that a non-mock
    /// handle rejects.
    pub fn set_alias(&mut self, alias: String) -> (r: Result<(), BluetoothError>)
        ensures
            old(self).is_mock() ==> (r == Ok::<(), BluetoothError>(()) && final(self).is_mock()
                && final(self).mock_view() == (MockAdapterView {
                alias: alias@,
                ..old(self).mock_view()
            })),
            !old(self).is_mock() ==> (r == Err::<(), BluetoothError>(
                BluetoothError::NotSupportedOnReal,
            ) && *final(self) == *old(self)),
    {
        match self {
            BluetoothAdapter::Mock(m) => {
                m.alias = alias;
                Ok(())
            },
            _ => Err(BluetoothError::NotSupportedOnReal),
        }
    }

    /// The adapter's device class.
    pub fn get_class(&self) -> (r: Result<u32, BluetoothError>)
        ensures
            self.is_mock() ==> r == Ok::<u32, BluetoothError>(self.mock_view().class),
            !self.is_mock() ==> r == Err::<u32, BluetoothError>(BluetoothError::NotSupported),
    {
        match self {
            BluetoothAdapter::Empty(adapter) => adapter.get_class(),
            BluetoothAdapter::Mock(m) => Ok(m.class),
        }
    }

    /// Sets the mock adapter's device class; a test-only operation that a
    /// non-mock handle rejects.
    pub fn set_class(&mut self, class: u32) -> (r: Result<(), BluetoothError>)
        ensures
            old(self).is_mock() ==> (r == Ok::<(), BluetoothError>(()) && final(self).is_mock()
                && final(self).mock_view() == (MockAdapterView {
                class: class,
                ..old(self).mock_view()
            })),
            !old(self).is_mock() ==> (r == Err::<(), BluetoothError>(
                BluetoothError::NotSupportedOnReal,
            ) && *final(self) == *old(self)),
    {
        match self {
            BluetoothAdapter::Mock(m) => {
                m.class = class;
                Ok(())
            },
            _ => Err(BluetoothError::NotSupportedOnReal),
        }
    }

    /// Whether the adapter's radio is powered.
    pub fn is_powered(&self) -> (r: Result<bool, BluetoothError>)
        ensures
            self.is_mock() ==> r == Ok::<bool, BluetoothError>(self.mock_view().is_powered),
            !self.is_mock() ==> r == Err::<bool, BluetoothError>(BluetoothError::NotSupported),
    {
        match self {
            BluetoothAdapter::Empty(adapter) => adapter.is_powered(),
            BluetoothAdapter::Mock(m) => Ok(m.is_powered),
        }
    }

    /// Sets the mock adapter's powered flag; a test-only operation that a
    /// non-mock handle rejects.
    pub fn set_powered(&mut self, powered: bool) -> (r: Result<(), BluetoothError>)
        ensures
            old(self).is_mock() ==> (r == Ok::<(), BluetoothError>(()) && final(self).is_mock()
                && final(self).mock_view() == (MockAdapterView {
                is_powered: powered,
                ..old(self).mock_view()
            })),
            !old(self).is_mock() ==> (r == Err::<(), BluetoothError>(
                BluetoothError::NotSupportedOnReal,
            ) && *final(self) == *old(self)),
    {
        match self {
            BluetoothAdapter::Mock(m) => {
                m.is_powered = powered;
                Ok(())
            },
            _ => Err(BluetoothError::NotSupportedOnReal),
        }
    }

    /// Whether the mock adapter counts as present; a test-only operation
    /// that a non-mock handle rejects.
    pub fn is_present(&self) -> (r: Result<bool, BluetoothError>)
        ensures
            self.is_mock() ==> r == Ok::<bool, BluetoothError>(self.mock_view().is_present),
            !self.is_mock() ==> r == Err::<bool, BluetoothError>(
                BluetoothError::NotSupportedOnReal,
            ),
    {
        match self {
            BluetoothAdapter::Mock(m) => Ok(m.is_present),
            _ => Err(BluetoothError::NotSupportedOnReal),
        }
    }

    /// Sets the mock adapter's present flag; a test-only operation that a
    /// non-mock handle rejects.
    pub fn set_present(&mut self, present: bool) -> (r: Result<(), BluetoothError>)
        ensures
            old(self).is_mock() ==> (r == Ok::<(), BluetoothError>(()) && final(self).is_mock()
                && final(self).mock_view() == (MockAdapterView {
                is_present: present,
                ..old(self).mock_view()
            })),
            !old(self).is_mock() ==> (r == Err::<(), BluetoothError>(
                BluetoothError::NotSupportedOnReal,
            ) && *final(self) == *old(self)),
    {
        match self {
            BluetoothAdapter::Mock(m) => {
                m.is_present = present;
                Ok(())
            },
            _ => Err(BluetoothError::NotSupportedOnReal),
        }
    }

    /// Whether the adapter is discoverable.
    pub fn is_discoverable(&self) -> (r: Result<bool, BluetoothError>)
        ensures
            self.is_mock() ==> r == Ok::<bool, BluetoothError>(self.mock_view().is_discoverable),
            !self.is_mock() ==> r == Err::<bool, BluetoothError>(BluetoothError::NotSupported),
    {
        match self {
            BluetoothAdapter::Empty(adapter) => adapter.is_discoverable(),
            BluetoothAdapter::Mock(m) => Ok(m.is_discoverable),
        }
    }

    /// Sets the mock adapter's discoverable flag; a test-only operation that
    /// a non-mock handle rejects.
    pub fn set_discoverable(&mut self, discoverable: bool) -> (r: Result<(), BluetoothError>)
        ensures
            old(self).is_mock() ==> (r == Ok::<(), BluetoothError>(()) && final(self).is_mock()
                && final(self).mock_view() == (MockAdapterView {
                is_discoverable: discoverable,
                ..old(self).mock_view()
            })),
            !old(self).is_mock() ==> (r == Err::<(), BluetoothError>(
                BluetoothError::NotSupportedOnReal,
            ) && *final(self) == *old(self)),
    {
        match self {
            BluetoothAdapter::Mock(m) => {
                m.is_discoverable = discoverable;
                Ok(())
            },
            _ => Err(BluetoothError::NotSupportedOnReal),
        }
    }

    /// Whether the adapter is pairable.
    pub fn is_pairable(&self) -> (r: Result<bool, BluetoothError>)
        ensures
            self.is_mock() ==> r == Ok::<bool, BluetoothError>(self.mock_view().is_pairable),
            !self.is_mock() ==> r == Err::<bool, BluetoothError>(BluetoothError::NotSupported),
    {
        match self {
            BluetoothAdapter::Empty(adapter) => adapter.is_pairable(),
            BluetoothAdapter::Mock(m) => Ok(m.is_pairable),
        }
    }

    /// Sets the mock adapter's pairable flag; a test-only operation that a
    /// non-mock handle rejects.
    pub fn set_pairable(&mut self, pairable: bool) -> (r: Result<(), BluetoothError>)
        ensures
            old(self).is_mock() ==> (r == Ok::<(), BluetoothError>(()) && final(self).is_mock()
                && final(self).mock_view() == (MockAdapterView {
                is_pairable: pairable,
                ..old(self).mock_view()
            })),
            !old(self).is_mock() ==> (r == Err::<(), BluetoothError>(
                BluetoothError::NotSupportedOnReal,
            ) && *final(self) == *old(self)),
    {
        match self {
            BluetoothAdapter::Mock(m) => {
                m.is_pairable = pairable;
                Ok(())
            },
            _ => Err(BluetoothError::NotSupportedOnReal),
        }
    }

    /// The pairable timeout in seconds.
    pub fn get_pairable_timeout(&self) -> (r: Result<u32, BluetoothError>)
        ensures
            self.is_mock() ==> r == Ok::<u32, BluetoothError>(self.mock_view().pairable_timeout),
            !self.is_mock() ==> r == Err::<u32, BluetoothError>(BluetoothError::NotSupported),
    {
        match self {
            BluetoothAdapter::Empty(adapter) => adapter.get_pairable_timeout(),
            BluetoothAdapter::Mock(m) => Ok(m.pairable_timeout),
        }
    }

    /// Sets the mock adapter's pairable timeout; a test-only operation that
    /// a non-mock handle rejects.
    pub fn set_pairable_timeout(&mut self, timeout: u32) -> (r: Result<(), BluetoothError>)
        ensures
            old(self).is_mock() ==> (r == Ok::<(), BluetoothError>(()) && final(self).is_mock()
                && final(self).mock_view() == (MockAdapterView {
                pairable_timeout: timeout,
                ..old(self).mock_view()
            })),
            !old(self).is_mock() ==> (r == Err::<(), BluetoothError>(
                BluetoothError::NotSupportedOnReal,
            ) && *final(self) == *old(self)),
    {
        match self {
            BluetoothAdapter::Mock(m) => {
                m.pairable_timeout = timeout;
                Ok(())
            },
            _ => Err(BluetoothError::NotSupportedOnReal),
        }
    }

    /// The discoverable timeout in seconds.
    pub fn get_discoverable_timeout(&self) -> (r: Result<u32, BluetoothError>)
        ensures
            self.is_mock() ==> r == Ok::<u32, BluetoothError>(
                self.mock_view().discoverable_timeout,
            ),
            !self.is_mock() ==> r == Err::<u32, BluetoothError>(BluetoothError::NotSupported),
    {
        match self {
            BluetoothAdapter::Empty(adapter) => adapter.get_discoverable_timeout(),
            BluetoothAdapter::Mock(m) => Ok(m.discoverable_timeout),
        }
    }

    /// Sets the mock adapter's discoverable timeout; a test-only operation
    /// that a non-mock handle rejects.
    pub fn set_discoverable_timeout(&mut self, timeout: u32) -> (r: Result<(), BluetoothError>)
        ensures
            old(self).is_mock() ==> (r == Ok::<(), BluetoothError>(()) && final(self).is_mock()
                && final(self).mock_view() == (MockAdapterView {
                discoverable_timeout: timeout,
                ..old(self).mock_view()
            })),
            !old(self).is_mock() ==> (r == Err::<(), BluetoothError>(
                BluetoothError::NotSupportedOnReal,
            ) && *final(self) == *old(self)),
    {
        match self {
            BluetoothAdapter::Mock(m) => {
                m.discoverable_timeout = timeout;
                Ok(())
            },
            _ => Err(BluetoothError::NotSupportedOnReal),
        }
    }

    /// Whether the adapter is discovering devices.
    pub fn is_discovering(&self) -> (r: Result<bool, BluetoothError>)
        ensures
            self.is_mock() ==> r == Ok::<bool, BluetoothError>(self.mock_view().is_discovering),
            !self.is_mock() ==> r == Err::<bool, BluetoothError>(BluetoothError::NotSupported),
    {
        match self {
            BluetoothAdapter::Empty(adapter) => adapter.is_discovering(),
            BluetoothAdapter::Mock(m) => Ok(m.is_discovering),
        }
    }

    /// Sets the mock adapter's discovering flag; a test-only operation that
    /// a non-mock handle rejects.
    pub fn set_discovering(&mut self, discovering: bool) -> (r: Result<(), BluetoothError>)
        ensures
            old(self).is_mock() ==> (r == Ok::<(), BluetoothError>(()) && final(self).is_mock()
                && final(self).mock_view() == (MockAdapterView {
                is_discovering: discovering,
                ..old(self).mock_view()
            })),
            !old(self).is_mock() ==> (r == Err::<(), BluetoothError>(
                BluetoothError::NotSupportedOnReal,
            ) && *final(self) == *old(self)),
    {
        match self {
            BluetoothAdapter::Mock(m) => {
                m.is_discovering = discovering;
                Ok(())
            },
            _ => Err(BluetoothError::NotSupportedOnReal),
        }
    }

    /// Sets whether mock discovery sessions may start discovery; a test-only
    /// operation that a non-mock handle rejects.
    pub fn set_can_start_discovery(&mut self, can_start_discovery: bool) -> (r: Result<
        (),
        BluetoothError,
    >)
        ensures
            old(self).is_mock() ==> (r == Ok::<(), BluetoothError>(()) && final(self).is_mock()
                && final(self).mock_view() == (MockAdapterView {
                can_start_discovery: can_start_discovery,
                ..old(self).mock_view()
            })),
            !old(self).is_mock() ==> (r == Err::<(), BluetoothError>(
                BluetoothError::NotSupportedOnReal,
            ) && *final(self) == *old(self)),
    {
        match self {
            BluetoothAdapter::Mock(m) => {
                m.can_start_discovery = can_start_discovery;
                Ok(())
            },
            _ => Err(BluetoothError::NotSupportedOnReal),
        }
    }

    /// Sets whether mock discovery sessions may stop discovery; a test-only
    /// operation that a non-mock handle rejects.
    pub fn set_can_stop_discovery(&mut self, can_stop_discovery: bool) -> (r: Result<
        (),
        BluetoothError,
    >)
        ensures
            old(self).is_mock() ==> (r == Ok::<(), BluetoothError>(()) && final(self).is_mock()
                && final(self).mock_view() == (MockAdapterView {
                can_stop_discovery: can_stop_discovery,
                ..old(self).mock_view()
            })),
            !old(self).is_mock() ==> (r == Err::<(), BluetoothError>(
                BluetoothError::NotSupportedOnReal,
            ) && *final(self) == *old(self)),
    {
        match self {
            BluetoothAdapter::Mock(m) => {
                m.can_stop_discovery = can_stop_discovery;
                Ok(())
            },
            _ => Err(BluetoothError::NotSupportedOnReal),
        }
    }

    /// A discovery session bound to this adapter, of the adapter's own
    /// backend variant.
    pub fn create_discovery_session(&self) -> (r: Result<
        BluetoothDiscoverySession,
        BluetoothError,
    >)
        ensures
            r matches Ok(s) && s.is_mock() == self.is_mock(),
            self.is_mock() ==> (r matches Ok(s) && s.mock_session()
                == (MockDiscoverySession {
                can_start_discovery: self.mock_view().can_start_discovery,
                can_stop_discovery: self.mock_view().can_stop_discovery,
            })),
    {
        BluetoothDiscoverySession::create_session(self)
    }

    /// The adapter's service UUIDs.
    pub fn get_uuids(&self) -> (r: Result<Vec<String>, BluetoothError>)
        ensures
            self.is_mock() ==> (r matches Ok(u) && u.deep_view() == self.mock_view().uuids),
            !self.is_mock() ==> r == Err::<Vec<String>, BluetoothError>(
                BluetoothError::NotSupported,
            ),
    {
        match self {
            BluetoothAdapter::Empty(adapter) => adapter.get_uuids(),
            BluetoothAdapter::Mock(m) => Ok(clone_string_vec(&m.uuids)),
        }
    }

    /// Sets the mock adapter's service UUIDs; a test-only operation that a
    /// non-mock handle rejects.
    pub fn set_uuids(&mut self, uuids: Vec<String>) -> (r: Result<(), BluetoothError>)
        ensures
            old(self).is_mock() ==> (r == Ok::<(), BluetoothError>(()) && final(self).is_mock()
                && final(self).mock_view() == (MockAdapterView {
                uuids: uuids.deep_view(),
                ..old(self).mock_view()
            })),
            !old(self).is_mock() ==> (r == Err::<(), BluetoothError>(
                BluetoothError::NotSupportedOnReal,
            ) && *final(self) == *old(self)),
    {
        match self {
            BluetoothAdapter::Mock(m) => {
                m.uuids = uuids;
                Ok(())
            },
            _ => Err(BluetoothError::NotSupportedOnReal),
        }
    }

    /// The bus the adapter's identifiers come from, read from the modalias.
    pub fn get_vendor_id_source(&self) -> (r: Result<String, BluetoothError>)
        ensures
            self.is_mock() && modalias_well_formed(self.mock_view().modalias) ==> (r matches Ok(s)
                && s@ == modalias_source(self.mock_view().modalias)),
            self.is_mock() && !modalias_well_formed(self.mock_view().modalias) ==> r == Err::<
                String,
                BluetoothError,
            >(BluetoothError::InvalidModalias),
            !self.is_mock() ==> r == Err::<String, BluetoothError>(BluetoothError::NotSupported),
    {
        match self {
            BluetoothAdapter::Empty(adapter) => adapter.get_vendor_id_source(),
            BluetoothAdapter::Mock(m) => match parse_modalias(&m.modalias) {
                Ok(t) => Ok(t.0),
                Err(e) => Err(e),
            },
        }
    }

    /// The adapter's vendor id, read from the modalias.
    pub fn get_vendor_id(&self) -> (r: Result<u32, BluetoothError>)
        ensures
            self.is_mock() && modalias_well_formed(self.mock_view().modalias) ==> (r matches Ok(v)
                && v as int == modalias_vendor(self.mock_view().modalias)),
            self.is_mock() && !modalias_well_formed(self.mock_view().modalias) ==> r == Err::<
                u32,
                BluetoothError,
            >(BluetoothError::InvalidModalias),
            !self.is_mock() ==> r == Err::<u32, BluetoothError>(BluetoothError::NotSupported),
    {
        match self {
            BluetoothAdapter::Empty(adapter) => adapter.get_vendor_id(),
            BluetoothAdapter::Mock(m) => match parse_modalias(&m.modalias) {
                Ok(t) => Ok(t.1),
                Err(e) => Err(e),
            },
        }
    }

    /// The adapter's product id, read from the modalias.
    pub fn get_product_id(&self) -> (r: Result<u32, BluetoothError>)
        ensures
            self.is_mock() && modalias_well_formed(self.mock_view().modalias) ==> (r matches Ok(v)
                && v as int == modalias_product(self.mock_view().modalias)),
            self.is_mock() && !modalias_well_formed(self.mock_view().modalias) ==> r == Err::<
                u32,
                BluetoothError,
            >(BluetoothError::InvalidModalias),
            !self.is_mock() ==> r == Err::<u32, BluetoothError>(BluetoothError::NotSupported),
    {
        match self {
            BluetoothAdapter::Empty(adapter) => adapter.get_product_id(),
            BluetoothAdapter::Mock(m) => match parse_modalias(&m.modalias) {
                Ok(t) => Ok(t.2),
                Err(e) => Err(e),
            },
        }
    }

    /// The adapter's device id, read from the modalias.
    pub fn get_device_id(&self) -> (r: Result<u32, BluetoothError>)
        ensures
            self.is_mock() && modalias_well_formed(self.mock_view().modalias) ==> (r matches Ok(v)
                && v as int == modalias_device(self.mock_view().modalias)),
            self.is_mock() && !modalias_well_formed(self.mock_view().modalias) ==> r == Err::<
                u32,
                BluetoothError,
            >(BluetoothError::InvalidModalias),
            !self.is_mock() ==> r == Err::<u32, BluetoothError>(BluetoothError::NotSupported),
    {
        match self {
            BluetoothAdapter::Empty(adapter) => adapter.get_device_id(),
            BluetoothAdapter::Mock(m) => match parse_modalias(&m.modalias) {
                Ok(t) => Ok(t.3),
                Err(e) => Err(e),
            },
        }
    }

    /// The adapter's modalias, split into its bus name and its vendor,
    /// product and device ids.
    pub fn get_modalias(&self) -> (r: Result<(String, u32, u32, u32), BluetoothError>)
        ensures
            self.is_mock() && modalias_well_formed(self.mock_view().modalias) ==> (r matches Ok(t)
                && t.0@ == modalias_source(self.mock_view().modalias) && t.1 as int
                == modalias_vendor(self.mock_view().modalias) && t.2 as int == modalias_product(
                self.mock_view().modalias,
            ) && t.3 as int == modalias_device(self.mock_view().modalias)),
            self.is_mock() && !modalias_well_formed(self.mock_view().modalias) ==> r == Err::<
                (String, u32, u32, u32),
                BluetoothError,
            >(BluetoothError::InvalidModalias),
            !self.is_mock() ==> r == Err::<(String, u32, u32, u32), BluetoothError>(
                BluetoothError::NotSupported,
            ),
    {
        match self {
            BluetoothAdapter::Empty(adapter) => adapter.get_modalias(),
            BluetoothAdapter::Mock(m) => parse_modalias(&m.modalias),
        }
    }

    /// Sets the mock adapter's raw modalias string; a test-only operation
    /// that a non-mock handle rejects.
    pub fn set_modalias(&mut self, modalias: String) -> (r: Result<(), BluetoothError>)
        ensures
            old(self).is_mock() ==> (r == Ok::<(), BluetoothError>(()) && final(self).is_mock()
                && final(self).mock_view() == (MockAdapterView {
                modalias: modalias@,
                ..old(self).mock_view()
            })),
            !old(self).is_mock() ==> (r == Err::<(), BluetoothError>(
                BluetoothError::NotSupportedOnReal,
            ) && *final(self) == *old(self)),
    {
        match self {
            BluetoothAdapter::Mock(m) => {
                m.modalias = modalias;
                Ok(())
            },
            _ => Err(BluetoothError::NotSupportedOnReal),
        }
    }

    /// The mock adapter's advertisement data; a test-only operation that a
    /// non-mock handle rejects.
    pub fn get_ad_datas(&self) -> (r: Result<Vec<String>, BluetoothError>)
        ensures
            self.is_mock() ==> (r matches Ok(a) && a.deep_view() == self.mock_view().ad_datas),
            !self.is_mock() ==> r == Err::<Vec<String>, BluetoothError>(
                BluetoothError::NotSupportedOnReal,
            ),
    {
        match self {
            BluetoothAdapter::Mock(m) => Ok(clone_string_vec(&m.ad_datas)),
            _ => Err(BluetoothError::NotSupportedOnReal),
        }
    }

    /// Sets the mock adapter's advertisement data; a test-only operation
    /// that a non-mock handle rejects.
    pub fn set_ad_datas(&mut self, ad_datas: Vec<String>) -> (r: Result<(), BluetoothError>)
        ensures
            old(self).is_mock() ==> (r == Ok::<(), BluetoothError>(()) && final(self).is_mock()
                && final(self).mock_view() == (MockAdapterView {
                ad_datas: ad_datas.deep_view(),
                ..old(self).mock_view()
            })),
            !old(self).is_mock() ==> (r == Err::<(), BluetoothError>(
                BluetoothError::NotSupportedOnReal,
            ) && *final(self) == *old(self)),
    {
        match self {
            BluetoothAdapter::Mock(m) => {
                m.ad_datas = ad_datas;
                Ok(())
            },
            _ => Err(BluetoothError::NotSupportedOnReal),
        }
    }
}

impl BluetoothDiscoverySession {
    /// A session of the adapter's own backend variant.  A mock session
    /// remembers whether the adapter allowed discovery to start and to stop
    /// at the moment of creation.
    fn create_session(adapter: &BluetoothAdapter) -> (r: Result<
        BluetoothDiscoverySession,
        BluetoothError,
    >)
        ensures
            r matches Ok(s) && s.is_mock() == adapter.is_mock(),
            adapter.is_mock() ==> (r matches Ok(s) && s.mock_session()
                == (MockDiscoverySession {
                can_start_discovery: adapter.mock_view().can_start_discovery,
                can_stop_discovery: adapter.mock_view().can_stop_discovery,
            })),
    {
        match adapter {
            BluetoothAdapter::Empty(a) => {
                let session = match EmptyDiscoverySession::create_session(a) {
                    Ok(s) => s,
                    Err(e) => {
                        return Err(e);
                    },
                };
                Ok(BluetoothDiscoverySession::Empty(session))
            },
            BluetoothAdapter::Mock(m) => Ok(
                BluetoothDiscoverySession::Mock(
                    MockDiscoverySession {
                        can_start_discovery: m.can_start_discovery,
                        can_stop_discovery: m.can_stop_discovery,
                    },
                ),
            ),
        }
    }

    /// Asks the backend to start discovering devices; the mock backend
    /// consents exactly when its session was allowed to start discovery.
    pub fn start_discovery(&self) -> (r: Result<(), BluetoothError>)
        ensures
            self.is_mock() && self.mock_session().can_start_discovery ==> r == Ok::<
                (),
                BluetoothError,
            >(()),
            self.is_mock() && !self.mock_session().can_start_discovery ==> r == Err::<
                (),
                BluetoothError,
            >(BluetoothError::StartDiscoveryFailed),
            !self.is_mock() ==> r == Err::<(), BluetoothError>(BluetoothError::NotSupported),
    {
        match self {
            BluetoothDiscoverySession::Empty(session) => session.start_discovery(),
            BluetoothDiscoverySession::Mock(s) => {
                if s.can_start_discovery {
                    Ok(())
                } else {
                    Err(BluetoothError::StartDiscoveryFailed)
                }
            },
        }
    }

    /// Asks the backend to stop discovering devices; the mock backend
    /// consents exactly when its session was allowed to stop discovery.
    pub fn stop_discovery(&self) -> (r: Result<(), BluetoothError>)
        ensures
            self.is_mock() && self.mock_session().can_stop_discovery ==> r == Ok::<
                (),
                BluetoothError,
            >(()),
            self.is_mock() && !self.mock_session().can_stop_discovery ==> r == Err::<
                (),
                BluetoothError,
            >(BluetoothError::StopDiscoveryFailed),
            !self.is_mock() ==> r == Err::<(), BluetoothError>(BluetoothError::NotSupported),
    {
        match self {
            BluetoothDiscoverySession::Empty(session) => session.stop_discovery(),
            BluetoothDiscoverySession::Mock(s) => {
                if s.can_stop_discovery {
                    Ok(())
                } else {
                    Err(BluetoothError::StopDiscoveryFailed)
                }
            },
        }
    }
}

impl BluetoothDevice {
    /// A fresh mock device registered with the given mock adapter; a
    /// non-mock adapter rejects the call.  When the adapter already knows a
    /// device with this identifier, that device is returned instead and the
    /// adapter is unchanged.
    pub fn create_mock_device(adapter: &mut BluetoothAdapter, device: String) -> (r: Result<
        BluetoothDevice,
        BluetoothError,
    >)
        ensures
            r matches Ok(d) ==> d.is_mock() && old(adapter).is_mock(),
            old(adapter).is_mock() ==> (r matches Ok(d) && d.is_mock() && final(adapter).is_mock()
                && ({
                let idx = find_device_by_id(old(adapter).mock_view().devices, device@, 0);
                if idx >= 0 {
                    final(adapter).mock_view() == old(adapter).mock_view() && d.mock_view()
                        == old(adapter).mock_view().devices[idx]
                } else {
                    d.mock_view() == device_new_empty_view(device@) && final(adapter).mock_view()
                        == (MockAdapterView {
                        devices: old(adapter).mock_view().devices.push(
                            device_new_empty_view(device@),
                        ),
                        ..old(adapter).mock_view()
                    })
                }
            })),
            !old(adapter).is_mock() ==> (r == Err::<BluetoothDevice, BluetoothError>(
                BluetoothError::NotSupportedOnMock,
            ) && *final(adapter) == *old(adapter)),
    {
        match adapter {
            BluetoothAdapter::Mock(fake_adapter) => Ok(
                BluetoothDevice::Mock(MockDevice::new_empty(fake_adapter, device)),
            ),
            _ => Err(BluetoothError::NotSupportedOnMock),
        }
    }

    /// The device's identifier; the stub backend has the empty identifier.
    pub fn get_id(&self) -> (r: String)
        ensures
            self.is_mock() ==> r@ == self.mock_view().id,
            !self.is_mock() ==> r@ == Seq::<char>::empty(),
    {
        match self {
            BluetoothDevice::Empty(device) => device.get_id(),
            BluetoothDevice::Mock(m) => m.id.clone(),
        }
    }

    /// Sets the mock device's identifier; on a non-mock handle the call is
    /// silently ignored.
    pub fn set_id(&mut self, id: String)
        ensures
            old(self).is_mock() ==> final(self).is_mock() && final(self).mock_view()
                == (MockDeviceView { id: id@, ..old(self).mock_view() }),
            !old(self).is_mock() ==> *final(self) == *old(self),
    {
        match self {
            BluetoothDevice::Mock(m) => {
                m.id = id;
            },
            _ => {},
        }
    }

    /// The device's address.
    pub fn get_address(&self) -> (r: Result<String, BluetoothError>)
        ensures
            self.is_mock() ==> (r matches Ok(s) && s@ == self.mock_view().address),
            !self.is_mock() ==> r == Err::<String, BluetoothError>(BluetoothError::NotSupported),
    {
        match self {
            BluetoothDevice::Empty(device) => device.get_address(),
            BluetoothDevice::Mock(m) => Ok(m.address.clone()),
        }
    }

    /// Sets the mock device's address; a test-only operation that a non-mock
    /// handle rejects.
    pub fn set_address(&mut self, address: String) -> (r: Result<(), BluetoothError>)
        ensures
            old(self).is_mock() ==> (r == Ok::<(), BluetoothError>(()) && final(self).is_mock()
                && final(self).mock_view() == (MockDeviceView {
                address: address@,
                ..old(self).mock_view()
            })),
            !old(self).is_mock() ==> (r == Err::<(), BluetoothError>(
                BluetoothError::NotSupportedOnReal,
            ) && *final(self) == *old(self)),
    {
        match self {
            BluetoothDevice::Mock(m) => {
                m.address = address;
                Ok(())
            },
            _ => Err(BluetoothError::NotSupportedOnReal),
        }
    }

    /// The device's name, which the mock backend reports only once one has
    /// been set.
    pub fn get_name(&self) -> (r: Result<String, BluetoothError>)
        ensures
            self.is_mock() ==> (match self.mock_view().name {
                Some(n) => r matches Ok(s) && s@ == n,
                None => r == Err::<String, BluetoothError>(BluetoothError::ValueNotSet),
            }),
            !self.is_mock() ==> r == Err::<String, BluetoothError>(BluetoothError::NotSupported),
    {
        match self {
            BluetoothDevice::Empty(device) => device.get_name(),
            BluetoothDevice::Mock(m) => match &m.name {
                Some(n) => Ok(n.clone()),
                None => Err(BluetoothError::ValueNotSet),
            },
        }
    }

    /// Sets or clears the mock device's name; a test-only operation that a
    /// non-mock handle rejects.
    pub fn set_name(&mut self, name: Option<String>) -> (r: Result<(), BluetoothError>)
        ensures
            old(self).is_mock() ==> (r == Ok::<(), BluetoothError>(()) && final(self).is_mock()
                && final(self).mock_view() == (MockDeviceView {
                name: crate::mock::opt_string_view(name),
                ..old(self).mock_view()
            })),
            !old(self).is_mock() ==> (r == Err::<(), BluetoothError>(
                BluetoothError::NotSupportedOnReal,
            ) && *final(self) == *old(self)),
    {
        match self {
            BluetoothDevice::Mock(m) => {
                m.name = name;
                Ok(())
            },
            _ => Err(BluetoothError::NotSupportedOnReal),
        }
    }

    /// The device's icon name.
    pub fn get_icon(&self) -> (r: Result<String, BluetoothError>)
        ensures
            self.is_mock() ==> (r matches Ok(s) && s@ == self.mock_view().icon),
            !self.is_mock() ==> r == Err::<String, BluetoothError>(BluetoothError::NotSupported),
    {
        match self {
            BluetoothDevice::Empty(device) => device.get_icon(),
            BluetoothDevice::Mock(m) => Ok(m.icon.clone()),
        }
    }

    /// Sets the mock device's icon name; a test-only operation that a
    /// non-mock handle rejects.
    pub fn set_icon(&mut self, icon: String) -> (r: Result<(), BluetoothError>)
        ensures
            old(self).is_mock() ==> (r == Ok::<(), BluetoothError>(()) && final(self).is_mock()
                && final(self).mock_view() == (MockDeviceView {
                icon: icon@,
                ..old(self).mock_view()
            })),
            !old(self).is_mock() ==> (r == Err::<(), BluetoothError>(
                BluetoothError::NotSupportedOnReal,
            ) && *final(self) == *old(self)),
    {
        match self {
            BluetoothDevice::Mock(m) => {
                m.icon = icon;
                Ok(())
            },
            _ => Err(BluetoothError::NotSupportedOnReal),
        }
    }

    /// The device's class.
    pub fn get_class(&self) -> (r: Result<u32, BluetoothError>)
        ensures
            self.is_mock() ==> r == Ok::<u32, BluetoothError>(self.mock_view().class),
            !self.is_mock() ==> r == Err::<u32, BluetoothError>(BluetoothError::NotSupported),
    {
        match self {
            BluetoothDevice::Empty(device) => device.get_class(),
            BluetoothDevice::Mock(m) => Ok(m.class),
        }
    }

    /// Sets the mock device's class; a test-only operation that a non-mock
    /// handle rejects.
    pub fn set_class(&mut self, class: u32) -> (r: Result<(), BluetoothError>)
        ensures
            old(self).is_mock() ==> (r == Ok::<(), BluetoothError>(()) && final(self).is_mock()
                && final(self).mock_view() == (MockDeviceView {
                class: class,
                ..old(self).mock_view()
            })),
            !old(self).is_mock() ==> (r == Err::<(), BluetoothError>(
                BluetoothError::NotSupportedOnReal,
            ) && *final(self) == *old(self)),
    {
        match self {
            BluetoothDevice::Mock(m) => {
                m.class = class;
                Ok(())
            },
            _ => Err(BluetoothError::NotSupportedOnReal),
        }
    }

    /// The device's appearance, which the mock backend reports only once one
    /// has been set.
    pub fn get_appearance(&self) -> (r: Result<u16, BluetoothError>)
        ensures
            self.is_mock() ==> (match self.mock_view().appearance {
                Some(a) => r == Ok::<u16, BluetoothError>(a),
                None => r == Err::<u16, BluetoothError>(BluetoothError::ValueNotSet),
            }),
            !self.is_mock() ==> r == Err::<u16, BluetoothError>(BluetoothError::NotSupported),
    {
        match self {
            BluetoothDevice::Empty(device) => device.get_appearance(),
            BluetoothDevice::Mock(m) => match m.appearance {
                Some(a) => Ok(a),
                None => Err(BluetoothError::ValueNotSet),
            },
        }
    }

    /// Sets the mock device's appearance; a test-only operation that a
    /// non-mock handle rejects.
    pub fn set_appearance(&mut self, appearance: u16) -> (r: Result<(), BluetoothError>)
        ensures
            old(self).is_mock() ==> (r == Ok::<(), BluetoothError>(()) && final(self).is_mock()
                && final(self).mock_view() == (MockDeviceView {
                appearance: Some(appearance),
                ..old(self).mock_view()
            })),
            !old(self).is_mock() ==> (r == Err::<(), BluetoothError>(
                BluetoothError::NotSupportedOnReal,
            ) && *final(self) == *old(self)),
    {
        match self {
            BluetoothDevice::Mock(m) => {
                m.appearance = Some(appearance);
                Ok(())
            },
            _ => Err(BluetoothError::NotSupportedOnReal),
        }
    }

    /// The device's service UUIDs.
    pub fn get_uuids(&self) -> (r: Result<Vec<String>, BluetoothError>)
        ensures
            self.is_mock() ==> (r matches Ok(u) && u.deep_view() == self.mock_view().uuids),
            !self.is_mock() ==> r == Err::<Vec<String>, BluetoothError>(
                BluetoothError::NotSupported,
            ),
    {
        match self {
            BluetoothDevice::Empty(device) => device.get_uuids(),
            BluetoothDevice::Mock(m) => Ok(clone_string_vec(&m.uuids)),
        }
    }

    /// Sets the mock device's service UUIDs; a test-only operation that a
    /// non-mock handle rejects.
    pub fn set_uuids(&mut self, uuids: Vec<String>) -> (r: Result<(), BluetoothError>)
        ensures
            old(self).is_mock() ==> (r == Ok::<(), BluetoothError>(()) && final(self).is_mock()
                && final(self).mock_view() == (MockDeviceView {
                uuids: uuids.deep_view(),
                ..old(self).mock_view()
            })),
            !old(self).is_mock() ==> (r == Err::<(), BluetoothError>(
                BluetoothError::NotSupportedOnReal,
            ) && *final(self) == *old(self)),
    {
        match self {
            BluetoothDevice::Mock(m) => {
                m.uuids = uuids;
                Ok(())
            },
            _ => Err(BluetoothError::NotSupportedOnReal),
        }
    }

    /// Whether the device is paired.
    pub fn is_paired(&self) -> (r: Result<bool, BluetoothError>)
        ensures
            self.is_mock() ==> r == Ok::<bool, BluetoothError>(self.mock_view().is_paired),
            !self.is_mock() ==> r == Err::<bool, BluetoothError>(BluetoothError::NotSupported),
    {
        match self {
            BluetoothDevice::Empty(device) => device.is_paired(),
            BluetoothDevice::Mock(m) => Ok(m.is_paired),
        }
    }

    /// Sets the mock device's paired flag; a test-only operation that a
    /// non-mock handle rejects.
    pub fn set_paired(&mut self, paired: bool) -> (r: Result<(), BluetoothError>)
        ensures
            old(self).is_mock() ==> (r == Ok::<(), BluetoothError>(()) && final(self).is_mock()
                && final(self).mock_view() == (MockDeviceView {
                is_paired: paired,
                ..old(self).mock_view()
            })),
            !old(self).is_mock() ==> (r == Err::<(), BluetoothError>(
                BluetoothError::NotSupportedOnReal,
            ) && *final(self) == *old(self)),
    {
        match self {
            BluetoothDevice::Mock(m) => {
                m.is_paired = paired;
                Ok(())
            },
            _ => Err(BluetoothError::NotSupportedOnReal),
        }
    }

    /// Whether the device is connected.
    pub fn is_connected(&self) -> (r: Result<bool, BluetoothError>)
        ensures
            self.is_mock() ==> r == Ok::<bool, BluetoothError>(self.mock_view().is_connected),
            !self.is_mock() ==> r == Err::<bool, BluetoothError>(BluetoothError::NotSupported),
    {
        match self {
            BluetoothDevice::Empty(device) => device.is_connected(),
            BluetoothDevice::Mock(m) => Ok(m.is_connected),
        }
    }

    /// Sets the mock device's connected flag; a test-only operation that a
    /// non-mock handle rejects.
    pub fn set_connected(&mut self, connected: bool) -> (r: Result<(), BluetoothError>)
        ensures
            old(self).is_mock() ==> (r == Ok::<(), BluetoothError>(()) && final(self).is_mock()
                && final(self).mock_view() == (MockDeviceView {
                is_connected: connected,
                ..old(self).mock_view()
            })),
            !old(self).is_mock() ==> (r == Err::<(), BluetoothError>(
                BluetoothError::NotSupportedOnReal,
            ) && *final(self) == *old(self)),
    {
        match self {
            BluetoothDevice::Mock(m) => {
                m.is_connected = connected;
                Ok(())
            },
            _ => Err(BluetoothError::NotSupportedOnReal),
        }
    }

    /// Whether the mock device accepts connections; a test-only operation
    /// that a non-mock handle rejects.
    pub fn is_connectable(&self) -> (r: Result<bool, BluetoothError>)
        ensures
            self.is_mock() ==> r == Ok::<bool, BluetoothError>(self.mock_view().is_connectable),
            !self.is_mock() ==> r == Err::<bool, BluetoothError>(
                BluetoothError::NotSupportedOnReal,
            ),
    {
        match self {
            BluetoothDevice::Mock(m) => Ok(m.is_connectable),
            _ => Err(BluetoothError::NotSupportedOnReal),
        }
    }

    /// Sets the mock device's connectable flag; a test-only operation that a
    /// non-mock handle rejects.
    pub fn set_connectable(&mut self, connectable: bool) -> (r: Result<(), BluetoothError>)
        ensures
            old(self).is_mock() ==> (r == Ok::<(), BluetoothError>(()) && final(self).is_mock()
                && final(self).mock_view() == (MockDeviceView {
                is_connectable: connectable,
                ..old(self).mock_view()
            })),
            !old(self).is_mock() ==> (r == Err::<(), BluetoothError>(
                BluetoothError::NotSupportedOnReal,
            ) && *final(self) == *old(self)),
    {
        match self {
            BluetoothDevice::Mock(m) => {
                m.is_connectable = connectable;
                Ok(())
            },
            _ => Err(BluetoothError::NotSupportedOnReal),
        }
    }

    /// Whether the device is trusted.
    pub fn is_trusted(&self) -> (r: Result<bool, BluetoothError>)
        ensures
            self.is_mock() ==> r == Ok::<bool, BluetoothError>(self.mock_view().is_trusted),
            !self.is_mock() ==> r == Err::<bool, BluetoothError>(BluetoothError::NotSupported),
    {
        match self {
            BluetoothDevice::Empty(device) => device.is_trusted(),
            BluetoothDevice::Mock(m) => Ok(m.is_trusted),
        }
    }

    /// Sets the mock device's trusted flag; a test-only operation that a
    /// non-mock handle rejects.
    pub fn set_trusted(&mut self, trusted: bool) -> (r: Result<(), BluetoothError>)
        ensures
            old(self).is_mock() ==> (r == Ok::<(), BluetoothError>(()) && final(self).is_mock()
                && final(self).mock_view() == (MockDeviceView {
                is_trusted: trusted,
                ..old(self).mock_view()
            })),
            !old(self).is_mock() ==> (r == Err::<(), BluetoothError>(
                BluetoothError::NotSupportedOnReal,
            ) && *final(self) == *old(self)),
    {
        match self {
            BluetoothDevice::Mock(m) => {
                m.is_trusted = trusted;
                Ok(())
            },
            _ => Err(BluetoothError::NotSupportedOnReal),
        }
    }

    /// Whether the device is blocked.
    pub fn is_blocked(&self) -> (r: Result<bool, BluetoothError>)
        ensures
            self.is_mock() ==> r == Ok::<bool, BluetoothError>(self.mock_view().is_blocked),
            !self.is_mock() ==> r == Err::<bool, BluetoothError>(BluetoothError::NotSupported),
    {
        match self {
            BluetoothDevice::Empty(device) => device.is_blocked(),
            BluetoothDevice::Mock(m) => Ok(m.is_blocked),
        }
    }

    /// Sets the mock device's blocked flag; a test-only operation that a
    /// non-mock handle rejects.
    pub fn set_blocked(&mut self, blocked: bool) -> (r: Result<(), BluetoothError>)
        ensures
            old(self).is_mock() ==> (r == Ok::<(), BluetoothError>(()) && final(self).is_mock()
                && final(self).mock_view() == (MockDeviceView {
                is_blocked: blocked,
                ..old(self).mock_view()
            })),
            !old(self).is_mock() ==> (r == Err::<(), BluetoothError>(
                BluetoothError::NotSupportedOnReal,
            ) && *final(self) == *old(self)),
    {
        match self {
            BluetoothDevice::Mock(m) => {
                m.is_blocked = blocked;
                Ok(())
            },
            _ => Err(BluetoothError::NotSupportedOnReal),
        }
    }

    /// The device's alias.
    pub fn get_alias(&self) -> (r: Result<String, BluetoothError>)
        ensures
            self.is_mock() ==> (r matches Ok(s) && s@ == self.mock_view().alias),
            !self.is_mock() ==> r == Err::<String, BluetoothError>(BluetoothError::NotSupported),
    {
        match self {
            BluetoothDevice::Empty(device) => device.get_alias(),
            BluetoothDevice::Mock(m) => Ok(m.alias.clone()),
        }
    }

    /// Sets the mock device's alias; a test-only operation that a non-mock
    /// handle rejects.
    pub fn set_alias(&mut self, alias: String) -> (r: Result<(), BluetoothError>)
        ensures
            old(self).is_mock() ==> (r == Ok::<(), BluetoothError>(()) && final(self).is_mock()
                && final(self).mock_view() == (MockDeviceView {
                alias: alias@,
                ..old(self).mock_view()
            })),
            !old(self).is_mock() ==> (r == Err::<(), BluetoothError>(
                BluetoothError::NotSupportedOnReal,
            ) && *final(self) == *old(self)),
    {
        match self {
            BluetoothDevice::Mock(m) => {
                m.alias = alias;
                Ok(())
            },
            _ => Err(BluetoothError::NotSupportedOnReal),
        }
    }

    /// Whether the device uses legacy pairing.
    pub fn is_legacy_pairing(&self) -> (r: Result<bool, BluetoothError>)
        ensures
            self.is_mock() ==> r == Ok::<bool, BluetoothError>(self.mock_view().is_legacy_pairing),
            !self.is_mock() ==> r == Err::<bool, BluetoothError>(BluetoothError::NotSupported),
    {
        match self {
            BluetoothDevice::Empty(device) => device.is_legacy_pairing(),
            BluetoothDevice::Mock(m) => Ok(m.is_legacy_pairing),
        }
    }

    /// Sets the mock device's legacy-pairing flag; a test-only operation
    /// that a non-mock handle rejects.
    pub fn set_legacy_pairing(&mut self, legacy_pairing: bool) -> (r: Result<(), BluetoothError>)
        ensures
            old(self).is_mock() ==> (r == Ok::<(), BluetoothError>(()) && final(self).is_mock()
                && final(self).mock_view() == (MockDeviceView {
                is_legacy_pairing: legacy_pairing,
                ..old(self).mock_view()
            })),
            !old(self).is_mock() ==> (r == Err::<(), BluetoothError>(
                BluetoothError::NotSupportedOnReal,
            ) && *final(self) == *old(self)),
    {
        match self {
            BluetoothDevice::Mock(m) => {
                m.is_legacy_pairing = legacy_pairing;
                Ok(())
            },
            _ => Err(BluetoothError::NotSupportedOnReal),
        }
    }

    /// The bus the device's identifiers come from, read from the modalias.
    pub fn get_vendor_id_source(&self) -> (r: Result<String, BluetoothError>)
        ensures
            self.is_mock() && modalias_well_formed(self.mock_view().modalias) ==> (r matches Ok(s)
                && s@ == modalias_source(self.mock_view().modalias)),
            self.is_mock() && !modalias_well_formed(self.mock_view().modalias) ==> r == Err::<
                String,
                BluetoothError,
            >(BluetoothError::InvalidModalias),
            !self.is_mock() ==> r == Err::<String, BluetoothError>(BluetoothError::NotSupported),
    {
        match self {
            BluetoothDevice::Empty(device) => device.get_vendor_id_source(),
            BluetoothDevice::Mock(m) => match parse_modalias(&m.modalias) {
                Ok(t) => Ok(t.0),
                Err(e) => Err(e),
            },
        }
    }

    /// The device's vendor id, read from the modalias.
    pub fn get_vendor_id(&self) -> (r: Result<u32, BluetoothError>)
        ensures
            self.is_mock() && modalias_well_formed(self.mock_view().modalias) ==> (r matches Ok(v)
                && v as int == modalias_vendor(self.mock_view().modalias)),
            self.is_mock() && !modalias_well_formed(self.mock_view().modalias) ==> r == Err::<
                u32,
                BluetoothError,
            >(BluetoothError::InvalidModalias),
            !self.is_mock() ==> r == Err::<u32, BluetoothError>(BluetoothError::NotSupported),
    {
        match self {
            BluetoothDevice::Empty(device) => device.get_vendor_id(),
            BluetoothDevice::Mock(m) => match parse_modalias(&m.modalias) {
                Ok(t) => Ok(t.1),
                Err(e) => Err(e),
            },
        }
    }

    /// The device's product id, read from the modalias.
    pub fn get_product_id(&self) -> (r: Result<u32, BluetoothError>)
        ensures
            self.is_mock() && modalias_well_formed(self.mock_view().modalias) ==> (r matches Ok(v)
                && v as int == modalias_product(self.mock_view().modalias)),
            self.is_mock() && !modalias_well_formed(self.mock_view().modalias) ==> r == Err::<
                u32,
                BluetoothError,
            >(BluetoothError::InvalidModalias),
            !self.is_mock() ==> r == Err::<u32, BluetoothError>(BluetoothError::NotSupported),
    {
        match self {
            BluetoothDevice::Empty(device) => device.get_product_id(),
            BluetoothDevice::Mock(m) => match parse_modalias(&m.modalias) {
                Ok(t) => Ok(t.2),
                Err(e) => Err(e),
            },
        }
    }

    /// The device's device id, read from the modalias.
    pub fn get_device_id(&self) -> (r: Result<u32, BluetoothError>)
        ensures
            self.is_mock() && modalias_well_formed(self.mock_view().modalias) ==> (r matches Ok(v)
                && v as int == modalias_device(self.mock_view().modalias)),
            self.is_mock() && !modalias_well_formed(self.mock_view().modalias) ==> r == Err::<
                u32,
                BluetoothError,
            >(BluetoothError::InvalidModalias),
            !self.is_mock() ==> r == Err::<u32, BluetoothError>(BluetoothError::NotSupported),
    {
        match self {
            BluetoothDevice::Empty(device) => device.get_device_id(),
            BluetoothDevice::Mock(m) => match parse_modalias(&m.modalias) {
                Ok(t) => Ok(t.3),
                Err(e) => Err(e),
            },
        }
    }

    /// The device's modalias, split into its bus name and its vendor,
    /// product and device ids.
    pub fn get_modalias(&self) -> (r: Result<(String, u32, u32, u32), BluetoothError>)
        ensures
            self.is_mock() && modalias_well_formed(self.mock_view().modalias) ==> (r matches Ok(t)
                && t.0@ == modalias_source(self.mock_view().modalias) && t.1 as int
                == modalias_vendor(self.mock_view().modalias) && t.2 as int == modalias_product(
                self.mock_view().modalias,
            ) && t.3 as int == modalias_device(self.mock_view().modalias)),
            self.is_mock() && !modalias_well_formed(self.mock_view().modalias) ==> r == Err::<
                (String, u32, u32, u32),
                BluetoothError,
            >(BluetoothError::InvalidModalias),
            !self.is_mock() ==> r == Err::<(String, u32, u32, u32), BluetoothError>(
                BluetoothError::NotSupported,
            ),
    {
        match self {
            BluetoothDevice::Empty(device) => device.get_modalias(),
            BluetoothDevice::Mock(m) => parse_modalias(&m.modalias),
        }
    }

    /// Sets the mock device's raw modalias string; a test-only operation
    /// that a non-mock handle rejects.
    pub fn set_modalias(&mut self, modalias: String) -> (r: Result<(), BluetoothError>)
        ensures
            old(self).is_mock() ==> (r == Ok::<(), BluetoothError>(()) && final(self).is_mock()
                && final(self).mock_view() == (MockDeviceView {
                modalias: modalias@,
                ..old(self).mock_view()
            })),
            !old(self).is_mock() ==> (r == Err::<(), BluetoothError>(
                BluetoothError::NotSupportedOnReal,
            ) && *final(self) == *old(self)),
    {
        match self {
            BluetoothDevice::Mock(m) => {
                m.modalias = modalias;
                Ok(())
            },
            _ => Err(BluetoothError::NotSupportedOnReal),
        }
    }

    /// The device's signal strength, which the mock backend reports only
    /// once one has been set.
    pub fn get_rssi(&self) -> (r: Result<i16, BluetoothError>)
        ensures
            self.is_mock() ==> (match self.mock_view().rssi {
                Some(v) => r == Ok::<i16, BluetoothError>(v),
                None => r == Err::<i16, BluetoothError>(BluetoothError::ValueNotSet),
            }),
            !self.is_mock() ==> r == Err::<i16, BluetoothError>(BluetoothError::NotSupported),
    {
        match self {
            BluetoothDevice::Empty(device) => device.get_rssi(),
            BluetoothDevice::Mock(m) => match m.rssi {
                Some(v) => Ok(v),
                None => Err(BluetoothError::ValueNotSet),
            },
        }
    }

    /// Sets the mock device's signal strength; a test-only operation that a
    /// non-mock handle rejects.
    pub fn set_rssi(&mut self, rssi: i16) -> (r: Result<(), BluetoothError>)
        ensures
            old(self).is_mock() ==> (r == Ok::<(), BluetoothError>(()) && final(self).is_mock()
                && final(self).mock_view() == (MockDeviceView {
                rssi: Some(rssi),
                ..old(self).mock_view()
            })),
            !old(self).is_mock() ==> (r == Err::<(), BluetoothError>(
                BluetoothError::NotSupportedOnReal,
            ) && *final(self) == *old(self)),
    {
        match self {
            BluetoothDevice::Mock(m) => {
                m.rssi = Some(rssi);
                Ok(())
            },
            _ => Err(BluetoothError::NotSupportedOnReal),
        }
    }

    /// The device's transmission power, which the mock backend reports only
    /// once one has been set.
    pub fn get_tx_power(&self) -> (r: Result<i16, BluetoothError>)
        ensures
            self.is_mock() ==> (match self.mock_view().tx_power {
                Some(v) => r == Ok::<i16, BluetoothError>(v),
                None => r == Err::<i16, BluetoothError>(BluetoothError::ValueNotSet),
            }),
            !self.is_mock() ==> r == Err::<i16, BluetoothError>(BluetoothError::NotSupported),
    {
        match self {
            BluetoothDevice::Empty(device) => device.get_tx_power(),
            BluetoothDevice::Mock(m) => match m.tx_power {
                Some(v) => Ok(v),
                None => Err(BluetoothError::ValueNotSet),
            },
        }
    }

    /// Sets the mock device's transmission power; a test-only operation that
    /// a non-mock handle rejects.
    pub fn set_tx_power(&mut self, tx_power: i16) -> (r: Result<(), BluetoothError>)
        ensures
            old(self).is_mock() ==> (r == Ok::<(), BluetoothError>(()) && final(self).is_mock()
                && final(self).mock_view() == (MockDeviceView {
                tx_power: Some(tx_power),
                ..old(self).mock_view()
            })),
            !old(self).is_mock() ==> (r == Err::<(), BluetoothError>(
                BluetoothError::NotSupportedOnReal,
            ) && *final(self) == *old(self)),
    {
        match self {
            BluetoothDevice::Mock(m) => {
                m.tx_power = Some(tx_power);
                Ok(())
            },
            _ => Err(BluetoothError::NotSupportedOnReal),
        }
    }

    /// One handle per GATT service of the device, each of the device's own
    /// backend variant; the mock backend hands its services out only while
    /// the device is connected.
    pub fn get_gatt_services(&self) -> (r: Result<Vec<BluetoothGATTService>, BluetoothError>)
        ensures
            self.is_mock() && self.mock_view().is_connected ==> (r matches Ok(svcs) && svcs@.len()
                == self.mock_view().gatt_services.len() && (forall|i: int|
                0 <= i < svcs@.len() ==> (#[trigger] svcs@[i]).is_mock() && svcs@[i].mock_view()
                    == self.mock_view().gatt_services[i])),
            self.is_mock() && !self.mock_view().is_connected ==> r == Err::<
                Vec<BluetoothGATTService>,
                BluetoothError,
            >(BluetoothError::DeviceNotConnected),
            !self.is_mock() ==> r == Err::<Vec<BluetoothGATTService>, BluetoothError>(
                BluetoothError::NotSupported,
            ),
    {
        match self {
            BluetoothDevice::Empty(device) => match device.get_gatt_services() {
                Ok(_) => Ok(Vec::new()),
                Err(e) => Err(e),
            },
            BluetoothDevice::Mock(m) => {
                if !m.is_connected {
                    return Err(BluetoothError::DeviceNotConnected);
                }
                let mut svcs: Vec<BluetoothGATTService> = Vec::new();
                let mut i: usize = 0;
                while i < m.gatt_services.len()
                    invariant
                        i <= m.gatt_services.len(),
                        svcs@.len() == i,
                        forall|j: int|
                            0 <= j < i ==> (#[trigger] svcs@[j]).is_mock() && svcs@[j].mock_view()
                                == m@.gatt_services[j],
                    decreases m.gatt_services.len() - i,
                {
                    svcs.push(BluetoothGATTService::Mock(m.gatt_services[i].duplicate()));
                    i += 1;
                }
                Ok(svcs)
            },
        }
    }

    /// Connects the device.  The mock backend consents when the device is
    /// already connected or is connectable; otherwise it reports the
    /// connection failure and changes nothing.
    pub fn connect(&mut self) -> (r: Result<(), BluetoothError>)
        ensures
            old(self).is_mock() && old(self).mock_view().is_connected ==> (r == Ok::<
                (),
                BluetoothError,
            >(()) && *final(self) == *old(self)),
            old(self).is_mock() && !old(self).mock_view().is_connected && old(self).mock_view().is_connectable ==> (r == Ok::<(), BluetoothError>(())
                && final(self).is_mock() && final(self).mock_view() == (MockDeviceView {
                is_connected: true,
                ..old(self).mock_view()
            })),
            old(self).is_mock() && !old(self).mock_view().is_connected && !old(self).mock_view().is_connectable ==> (r == Err::<(), BluetoothError>(
                BluetoothError::ConnectFailed,
            ) && *final(self) == *old(self)),
            !old(self).is_mock() ==> (r == Err::<(), BluetoothError>(BluetoothError::NotSupported)
                && *final(self) == *old(self)),
    {
        match self {
            BluetoothDevice::Empty(device) => device.connect(),
            BluetoothDevice::Mock(m) => {
                if m.is_connected {
                    Ok(())
                } else if m.is_connectable {
                    m.is_connected = true;
                    Ok(())
                } else {
                    Err(BluetoothError::ConnectFailed)
                }
            },
        }
    }

    /// Disconnects the device.  The mock backend consents only while the
    /// device is connected; otherwise it reports the failure and changes
    /// nothing.
    pub fn disconnect(&mut self) -> (r: Result<(), BluetoothError>)
        ensures
            old(self).is_mock() && old(self).mock_view().is_connected ==> (r == Ok::<
                (),
                BluetoothError,
            >(()) && final(self).is_mock() && final(self).mock_view() == (MockDeviceView {
                is_connected: false,
                ..old(self).mock_view()
            })),
            old(self).is_mock() && !old(self).mock_view().is_connected ==> (r == Err::<
                (),
                BluetoothError,
            >(BluetoothError::DisconnectFailed) && *final(self) == *old(self)),
            !old(self).is_mock() ==> (r == Err::<(), BluetoothError>(BluetoothError::NotSupported)
                && *final(self) == *old(self)),
    {
        match self {
            BluetoothDevice::Empty(device) => device.disconnect(),
            BluetoothDevice::Mock(m) => {
                if m.is_connected {
                    m.is_connected = false;
                    Ok(())
                } else {
                    Err(BluetoothError::DisconnectFailed)
                }
            },
        }
    }

    /// Connects a profile by UUID.  The mock backend leaves profile
    /// connections unimplemented, so a mock handle may not be passed.
    pub fn connect_profile(&self, _uuid: String) -> (r: Result<(), BluetoothError>)
        requires
            !self.is_mock(),
        ensures
            r == Err::<(), BluetoothError>(BluetoothError::NotSupported),
    {
        match self {
            BluetoothDevice::Empty(device) => device.connect_profile(_uuid),
            BluetoothDevice::Mock(_) => Err(BluetoothError::NotSupported),
        }
    }

    /// Disconnects a profile by UUID.  The mock backend leaves profile
    /// connections unimplemented, so a mock handle may not be passed.
    pub fn disconnect_profile(&self, _uuid: String) -> (r: Result<(), BluetoothError>)
        requires
            !self.is_mock(),
        ensures
            r == Err::<(), BluetoothError>(BluetoothError::NotSupported),
    {
        match self {
            BluetoothDevice::Empty(device) => device.disconnect_profile(_uuid),
            BluetoothDevice::Mock(_) => Err(BluetoothError::NotSupported),
        }
    }

    /// Pairs the device; the mock backend simply records it as paired.
    pub fn pair(&mut self) -> (r: Result<(), BluetoothError>)
        ensures
            old(self).is_mock() ==> (r == Ok::<(), BluetoothError>(()) && final(self).is_mock()
                && final(self).mock_view() == (MockDeviceView {
                is_paired: true,
                ..old(self).mock_view()
            })),
            !old(self).is_mock() ==> (r == Err::<(), BluetoothError>(BluetoothError::NotSupported)
                && *final(self) == *old(self)),
    {
        match self {
            BluetoothDevice::Empty(device) => device.pair(),
            BluetoothDevice::Mock(m) => {
                m.is_paired = true;
                Ok(())
            },
        }
    }

    /// Cancels pairing; the mock backend simply records the device as not
    /// paired.
    pub fn cancel_pairing(&mut self) -> (r: Result<(), BluetoothError>)
        ensures
            old(self).is_mock() ==> (r == Ok::<(), BluetoothError>(()) && final(self).is_mock()
                && final(self).mock_view() == (MockDeviceView {
                is_paired: false,
                ..old(self).mock_view()
            })),
            !old(self).is_mock() ==> (r == Err::<(), BluetoothError>(BluetoothError::NotSupported)
                && *final(self) == *old(self)),
    {
        match self {
            BluetoothDevice::Empty(device) => device.cancel_pairing(),
            BluetoothDevice::Mock(m) => {
                m.is_paired = false;
                Ok(())
            },
        }
    }
}


impl BluetoothGATTService {
    /// A fresh mock GATT service registered with the given mock device; a
    /// non-mock device rejects the call.  When the device already holds a
    /// service with this identifier, that service is returned instead and
    /// the device is unchanged.
    pub fn create_mock_service(device: &mut BluetoothDevice, service: String) -> (r: Result<
        BluetoothGATTService,
        BluetoothError,
    >)
        ensures
            r matches Ok(s) ==> s.is_mock() && old(device).is_mock(),
            old(device).is_mock() ==> (r matches Ok(s) && s.is_mock() && final(device).is_mock()
                && ({
                let idx = find_service_by_id(old(device).mock_view().gatt_services, service@, 0);
                if idx >= 0 {
                    final(device).mock_view() == old(device).mock_view() && s.mock_view()
                        == old(device).mock_view().gatt_services[idx]
                } else {
                    s.mock_view() == service_new_empty_view(service@) && final(device).mock_view()
                        == (MockDeviceView {
                        gatt_services: old(device).mock_view().gatt_services.push(
                            service_new_empty_view(service@),
                        ),
                        ..old(device).mock_view()
                    })
                }
            })),
            !old(device).is_mock() ==> (r == Err::<BluetoothGATTService, BluetoothError>(
                BluetoothError::NotSupportedOnMock,
            ) && *final(device) == *old(device)),
    {
        match device {
            BluetoothDevice::Mock(fake_device) => Ok(
                BluetoothGATTService::Mock(MockService::new_empty(fake_device, service)),
            ),
            _ => Err(BluetoothError::NotSupportedOnMock),
        }
    }

    /// The service's identifier; the stub backend has the empty identifier.
    pub fn get_id(&self) -> (r: String)
        ensures
            self.is_mock() ==> r@ == self.mock_view().id,
            !self.is_mock() ==> r@ == Seq::<char>::empty(),
    {
        match self {
            BluetoothGATTService::Empty(service) => service.get_id(),
            BluetoothGATTService::Mock(m) => m.id.clone(),
        }
    }

    /// Sets the mock service's identifier; on a non-mock handle the call is
    /// silently ignored.
    pub fn set_id(&mut self, id: String)
        ensures
            old(self).is_mock() ==> final(self).is_mock() && final(self).mock_view()
                == (MockServiceView { id: id@, ..old(self).mock_view() }),
            !old(self).is_mock() ==> *final(self) == *old(self),
    {
        match self {
            BluetoothGATTService::Mock(m) => {
                m.id = id;
            },
            _ => {},
        }
    }

    /// The service's UUID.
    pub fn get_uuid(&self) -> (r: Result<String, BluetoothError>)
        ensures
            self.is_mock() ==> (r matches Ok(s) && s@ == self.mock_view().uuid),
            !self.is_mock() ==> r == Err::<String, BluetoothError>(BluetoothError::NotSupported),
    {
        match self {
            BluetoothGATTService::Empty(service) => service.get_uuid(),
            BluetoothGATTService::Mock(m) => Ok(m.uuid.clone()),
        }
    }

    /// Sets the mock service's UUID; a test-only operation that a non-mock
    /// handle rejects.
    pub fn set_uuid(&mut self, uuid: String) -> (r: Result<(), BluetoothError>)
        ensures
            old(self).is_mock() ==> (r == Ok::<(), BluetoothError>(()) && final(self).is_mock()
                && final(self).mock_view() == (MockServiceView {
                uuid: uuid@,
                ..old(self).mock_view()
            })),
            !old(self).is_mock() ==> (r == Err::<(), BluetoothError>(
                BluetoothError::NotSupportedOnReal,
            ) && *final(self) == *old(self)),
    {
        match self {
            BluetoothGATTService::Mock(m) => {
                m.uuid = uuid;
                Ok(())
            },
            _ => Err(BluetoothError::NotSupportedOnReal),
        }
    }

    /// Whether the service is a primary service.
    pub fn is_primary(&self) -> (r: Result<bool, BluetoothError>)
        ensures
            self.is_mock() ==> r == Ok::<bool, BluetoothError>(self.mock_view().is_primary),
            !self.is_mock() ==> r == Err::<bool, BluetoothError>(BluetoothError::NotSupported),
    {
        match self {
            BluetoothGATTService::Empty(service) => service.is_primary(),
            BluetoothGATTService::Mock(m) => Ok(m.is_primary),
        }
    }

    /// Sets the mock service's primary flag; a test-only operation that a
    /// non-mock handle rejects.
    pub fn set_primary(&mut self, primary: bool) -> (r: Result<(), BluetoothError>)
        ensures
            old(self).is_mock() ==> (r == Ok::<(), BluetoothError>(()) && final(self).is_mock()
                && final(self).mock_view() == (MockServiceView {
                is_primary: primary,
                ..old(self).mock_view()
            })),
            !old(self).is_mock() ==> (r == Err::<(), BluetoothError>(
                BluetoothError::NotSupportedOnReal,
            ) && *final(self) == *old(self)),
    {
        match self {
            BluetoothGATTService::Mock(m) => {
                m.is_primary = primary;
                Ok(())
            },
            _ => Err(BluetoothError::NotSupportedOnReal),
        }
    }

    /// One handle per included service, resolved against the given device:
    /// an included identifier that the device knows yields that service, and
    /// an unknown one yields a service in the default state.  Each handle is
    /// of the device's own backend variant.
    pub fn get_includes(&self, device: &BluetoothDevice) -> (r: Result<
        Vec<BluetoothGATTService>,
        BluetoothError,
    >)
        ensures
            self.is_mock() && device.is_mock() ==> (r matches Ok(svcs) && svcs@.len()
                == self.mock_view().includes.len() && (forall|i: int|
                0 <= i < svcs@.len() ==> (#[trigger] svcs@[i]).is_mock() && svcs@[i].mock_view()
                    == ({
                    let id = self.mock_view().includes[i];
                    let idx = find_service_by_id(device.mock_view().gatt_services, id, 0);
                    if idx >= 0 {
                        device.mock_view().gatt_services[idx]
                    } else {
                        service_new_empty_view(id)
                    }
                }))),
            self.is_mock() && !device.is_mock() ==> (r matches Ok(svcs) && svcs@.len()
                == self.mock_view().includes.len() && (forall|i: int|
                0 <= i < svcs@.len() ==> !(#[trigger] svcs@[i]).is_mock())),
            !self.is_mock() ==> r == Err::<Vec<BluetoothGATTService>, BluetoothError>(
                BluetoothError::NotSupported,
            ),
    {
        match self {
            BluetoothGATTService::Empty(service) => match device {
                BluetoothDevice::Empty(d) => match service.get_includes(d) {
                    Ok(_) => Ok(Vec::new()),
                    Err(e) => Err(e),
                },
                _ => Err(BluetoothError::NotSupported),
            },
            BluetoothGATTService::Mock(m) => {
                let mut svcs: Vec<BluetoothGATTService> = Vec::new();
                let mut i: usize = 0;
                while i < m.includes.len()
                    invariant
                        i <= m.includes.len(),
                        svcs@.len() == i,
                        forall|j: int|
                            0 <= j < i ==> (#[trigger] svcs@[j]).is_mock() == device.is_mock(),
                        device.is_mock() ==> (forall|j: int|
                            0 <= j < i ==> (#[trigger] svcs@[j]).mock_view() == ({
                                let id = m@.includes[j];
                                let idx = find_service_by_id(
                                    device.mock_view().gatt_services,
                                    id,
                                    0,
                                );
                                if idx >= 0 {
                                    device.mock_view().gatt_services[idx]
                                } else {
                                    service_new_empty_view(id)
                                }
                            })),
                    decreases m.includes.len() - i,
                {
                    let id = m.includes[i].clone();
                    match device {
                        BluetoothDevice::Mock(md) => match md.get_gatt_service(&id) {
                            Some(svc) => {
                                svcs.push(BluetoothGATTService::Mock(svc));
                            },
                            None => {
                                svcs.push(
                                    BluetoothGATTService::Mock(
                                        MockService {
                                            id: id,
                                            uuid: String::new(),
                                            is_primary: true,
                                            includes: Vec::new(),
                                            gatt_characteristics: Vec::new(),
                                        },
                                    ),
                                );
                            },
                        },
                        BluetoothDevice::Empty(d) => {
                            svcs.push(BluetoothGATTService::Empty(EmptyService::create_service(d, id)));
                        },
                    }
                    i += 1;
                }
                Ok(svcs)
            },
        }
    }

    /// One handle per characteristic of the service, each of the service's
    /// own backend variant.
    pub fn get_gatt_characteristics(&self) -> (r: Result<
        Vec<BluetoothGATTCharacteristic>,
        BluetoothError,
    >)
        ensures
            self.is_mock() ==> (r matches Ok(chars) && chars@.len()
                == self.mock_view().gatt_characteristics.len() && (forall|i: int|
                0 <= i < chars@.len() ==> (#[trigger] chars@[i]).is_mock()
                    && chars@[i].mock_view() == self.mock_view().gatt_characteristics[i])),
            !self.is_mock() ==> r == Err::<Vec<BluetoothGATTCharacteristic>, BluetoothError>(
                BluetoothError::NotSupported,
            ),
    {
        match self {
            BluetoothGATTService::Empty(service) => match service.get_gatt_characteristics() {
                Ok(_) => Ok(Vec::new()),
                Err(e) => Err(e),
            },
            BluetoothGATTService::Mock(m) => {
                let mut chars: Vec<BluetoothGATTCharacteristic> = Vec::new();
                let mut i: usize = 0;
                while i < m.gatt_characteristics.len()
                    invariant
                        i <= m.gatt_characteristics.len(),
                        chars@.len() == i,
                        forall|j: int|
                            0 <= j < i ==> (#[trigger] chars@[j]).is_mock() && chars@[j].mock_view()
                                == m@.gatt_characteristics[j],
                    decreases m.gatt_characteristics.len() - i,
                {
                    chars.push(
                        BluetoothGATTCharacteristic::Mock(m.gatt_characteristics[i].duplicate()),
                    );
                    i += 1;
                }
                Ok(chars)
            },
        }
    }
}

impl BluetoothGATTCharacteristic {
    /// A fresh mock GATT characteristic registered with the given mock
    /// service; a non-mock service rejects the call.  When the service
    /// already holds a characteristic with this identifier, that
    /// characteristic is returned instead and the service is unchanged.
    pub fn create_mock_characteristic(
        service: &mut BluetoothGATTService,
        characteristic: String,
    ) -> (r: Result<BluetoothGATTCharacteristic, BluetoothError>)
        ensures
            r matches Ok(c) ==> c.is_mock() && old(service).is_mock(),
            old(service).is_mock() ==> (r matches Ok(c) && c.is_mock() && final(service).is_mock()
                && ({
                let idx = find_characteristic_by_id(
                    old(service).mock_view().gatt_characteristics,
                    characteristic@,
                    0,
                );
                if idx >= 0 {
                    final(service).mock_view() == old(service).mock_view() && c.mock_view()
                        == old(service).mock_view().gatt_characteristics[idx]
                } else {
                    c.mock_view() == characteristic_new_empty_view(characteristic@) && final(service).mock_view() == (MockServiceView {
                        gatt_characteristics: old(service).mock_view().gatt_characteristics.push(
                            characteristic_new_empty_view(characteristic@),
                        ),
                        ..old(service).mock_view()
                    })
                }
            })),
            !old(service).is_mock() ==> (r == Err::<BluetoothGATTCharacteristic, BluetoothError>(
                BluetoothError::NotSupportedOnMock,
            ) && *final(service) == *old(service)),
    {
        match service {
            BluetoothGATTService::Mock(fake_service) => Ok(
                BluetoothGATTCharacteristic::Mock(
                    MockCharacteristic::new_empty(fake_service, characteristic),
                ),
            ),
            _ => Err(BluetoothError::NotSupportedOnMock),
        }
    }

    /// The characteristic's identifier; the stub backend has the empty
    /// identifier.
    pub fn get_id(&self) -> (r: String)
        ensures
            self.is_mock() ==> r@ == self.mock_view().id,
            !self.is_mock() ==> r@ == Seq::<char>::empty(),
    {
        match self {
            BluetoothGATTCharacteristic::Empty(characteristic) => characteristic.get_id(),
            BluetoothGATTCharacteristic::Mock(m) => m.id.clone(),
        }
    }

    /// Sets the mock characteristic's identifier; on a non-mock handle the
    /// call is silently ignored.
    pub fn set_id(&mut self, id: String)
        ensures
            old(self).is_mock() ==> final(self).is_mock() && final(self).mock_view()
                == (MockCharacteristicView { id: id@, ..old(self).mock_view() }),
            !old(self).is_mock() ==> *final(self) == *old(self),
    {
        match self {
            BluetoothGATTCharacteristic::Mock(m) => {
                m.id = id;
            },
            _ => {},
        }
    }

    /// The characteristic's UUID.
    pub fn get_uuid(&self) -> (r: Result<String, BluetoothError>)
        ensures
            self.is_mock() ==> (r matches Ok(s) && s@ == self.mock_view().uuid),
            !self.is_mock() ==> r == Err::<String, BluetoothError>(BluetoothError::NotSupported),
    {
        match self {
            BluetoothGATTCharacteristic::Empty(characteristic) => characteristic.get_uuid(),
            BluetoothGATTCharacteristic::Mock(m) => Ok(m.uuid.clone()),
        }
    }

    /// Sets the mock characteristic's UUID; a test-only operation that a
    /// non-mock handle rejects.
    pub fn set_uuid(&mut self, uuid: String) -> (r: Result<(), BluetoothError>)
        ensures
            old(self).is_mock() ==> (r == Ok::<(), BluetoothError>(()) && final(self).is_mock()
                && final(self).mock_view() == (MockCharacteristicView {
                uuid: uuid@,
                ..old(self).mock_view()
            })),
            !old(self).is_mock() ==> (r == Err::<(), BluetoothError>(
                BluetoothError::NotSupportedOnReal,
            ) && *final(self) == *old(self)),
    {
        match self {
            BluetoothGATTCharacteristic::Mock(m) => {
                m.uuid = uuid;
                Ok(())
            },
            _ => Err(BluetoothError::NotSupportedOnReal),
        }
    }

    /// The characteristic's cached value, which the mock backend reports
    /// only once one has been set or written.
    pub fn get_value(&self) -> (r: Result<Vec<u8>, BluetoothError>)
        ensures
            self.is_mock() ==> (match self.mock_view().value {
                Some(v) => r matches Ok(b) && b@ == v,
                None => r == Err::<Vec<u8>, BluetoothError>(BluetoothError::ValueNotSet),
            }),
            !self.is_mock() ==> r == Err::<Vec<u8>, BluetoothError>(BluetoothError::NotSupported),
    {
        match self {
            BluetoothGATTCharacteristic::Empty(characteristic) => characteristic.get_value(),
            BluetoothGATTCharacteristic::Mock(m) => match &m.value {
                Some(v) => Ok(clone_byte_vec(v)),
                None => Err(BluetoothError::ValueNotSet),
            },
        }
    }

    /// Sets the mock characteristic's cached value; a test-only operation
    /// that a non-mock handle rejects.
    pub fn set_value(&mut self, value: Vec<u8>) -> (r: Result<(), BluetoothError>)
        ensures
            old(self).is_mock() ==> (r == Ok::<(), BluetoothError>(()) && final(self).is_mock()
                && final(self).mock_view() == (MockCharacteristicView {
                value: Some(value@),
                ..old(self).mock_view()
            })),
            !old(self).is_mock() ==> (r == Err::<(), BluetoothError>(
                BluetoothError::NotSupportedOnReal,
            ) && *final(self) == *old(self)),
    {
        match self {
            BluetoothGATTCharacteristic::Mock(m) => {
                m.value = Some(value);
                Ok(())
            },
            _ => Err(BluetoothError::NotSupportedOnReal),
        }
    }

    /// Whether the characteristic is notifying.
    pub fn is_notifying(&self) -> (r: Result<bool, BluetoothError>)
        ensures
            self.is_mock() ==> r == Ok::<bool, BluetoothError>(self.mock_view().is_notifying),
            !self.is_mock() ==> r == Err::<bool, BluetoothError>(BluetoothError::NotSupported),
    {
        match self {
            BluetoothGATTCharacteristic::Empty(characteristic) => characteristic.is_notifying(),
            BluetoothGATTCharacteristic::Mock(m) => Ok(m.is_notifying),
        }
    }

    /// Sets the mock characteristic's notifying flag; a test-only operation
    /// that a non-mock handle rejects.
    pub fn set_notifying(&mut self, notifying: bool) -> (r: Result<(), BluetoothError>)
        ensures
            old(self).is_mock() ==> (r == Ok::<(), BluetoothError>(()) && final(self).is_mock()
                && final(self).mock_view() == (MockCharacteristicView {
                is_notifying: notifying,
                ..old(self).mock_view()
            })),
            !old(self).is_mock() ==> (r == Err::<(), BluetoothError>(
                BluetoothError::NotSupportedOnReal,
            ) && *final(self) == *old(self)),
    {
        match self {
            BluetoothGATTCharacteristic::Mock(m) => {
                m.is_notifying = notifying;
                Ok(())
            },
            _ => Err(BluetoothError::NotSupportedOnReal),
        }
    }

    /// The characteristic's property flags.
    pub fn get_flags(&self) -> (r: Result<Vec<String>, BluetoothError>)
        ensures
            self.is_mock() ==> (r matches Ok(f) && f.deep_view() == self.mock_view().flags),
            !self.is_mock() ==> r == Err::<Vec<String>, BluetoothError>(
                BluetoothError::NotSupported,
            ),
    {
        match self {
            BluetoothGATTCharacteristic::Empty(characteristic) => characteristic.get_flags(),
            BluetoothGATTCharacteristic::Mock(m) => Ok(clone_string_vec(&m.flags)),
        }
    }

    /// Sets the mock characteristic's property flags; a test-only operation
    /// that a non-mock handle rejects.
    pub fn set_flags(&mut self, flags: Vec<String>) -> (r: Result<(), BluetoothError>)
        ensures
            old(self).is_mock() ==> (r == Ok::<(), BluetoothError>(()) && final(self).is_mock()
                && final(self).mock_view() == (MockCharacteristicView {
                flags: flags.deep_view(),
                ..old(self).mock_view()
            })),
            !old(self).is_mock() ==> (r == Err::<(), BluetoothError>(
                BluetoothError::NotSupportedOnReal,
            ) && *final(self) == *old(self)),
    {
        match self {
            BluetoothGATTCharacteristic::Mock(m) => {
                m.flags = flags;
                Ok(())
            },
            _ => Err(BluetoothError::NotSupportedOnReal),
        }
    }

    /// One handle per descriptor of the characteristic, each of the
    /// characteristic's own backend variant.
    pub fn get_gatt_descriptors(&self) -> (r: Result<
        Vec<BluetoothGATTDescriptor>,
        BluetoothError,
    >)
        ensures
            self.is_mock() ==> (r matches Ok(descs) && descs@.len()
                == self.mock_view().gatt_descriptors.len() && (forall|i: int|
                0 <= i < descs@.len() ==> (#[trigger] descs@[i]).is_mock()
                    && descs@[i].mock_view() == self.mock_view().gatt_descriptors[i])),
            !self.is_mock() ==> r == Err::<Vec<BluetoothGATTDescriptor>, BluetoothError>(
                BluetoothError::NotSupported,
            ),
    {
        match self {
            BluetoothGATTCharacteristic::Empty(characteristic) => match characteristic.get_gatt_descriptors() {
                Ok(_) => Ok(Vec::new()),
                Err(e) => Err(e),
            },
            BluetoothGATTCharacteristic::Mock(m) => {
                let mut descs: Vec<BluetoothGATTDescriptor> = Vec::new();
                let mut i: usize = 0;
                while i < m.gatt_descriptors.len()
                    invariant
                        i <= m.gatt_descriptors.len(),
                        descs@.len() == i,
                        forall|j: int|
                            0 <= j < i ==> (#[trigger] descs@[j]).is_mock() && descs@[j].mock_view()
                                == m@.gatt_descriptors[j],
                    decreases m.gatt_descriptors.len() - i,
                {
                    descs.push(BluetoothGATTDescriptor::Mock(m.gatt_descriptors[i].duplicate()));
                    i += 1;
                }
                Ok(descs)
            },
        }
    }

    /// Reads the characteristic's value; the mock backend reports its cached
    /// value, or a failure when none has been set.
    pub fn read_value(&self) -> (r: Result<Vec<u8>, BluetoothError>)
        ensures
            self.is_mock() ==> (match self.mock_view().value {
                Some(v) => r matches Ok(b) && b@ == v,
                None => r == Err::<Vec<u8>, BluetoothError>(BluetoothError::ValueNotSet),
            }),
            !self.is_mock() ==> r == Err::<Vec<u8>, BluetoothError>(BluetoothError::NotSupported),
    {
        match self {
            BluetoothGATTCharacteristic::Empty(characteristic) => characteristic.read_value(),
            BluetoothGATTCharacteristic::Mock(m) => match &m.value {
                Some(v) => Ok(clone_byte_vec(v)),
                None => Err(BluetoothError::ValueNotSet),
            },
        }
    }

    /// Writes the characteristic's value; the mock backend caches it.
    pub fn write_value(&mut self, values: Vec<u8>) -> (r: Result<(), BluetoothError>)
        ensures
            old(self).is_mock() ==> (r == Ok::<(), BluetoothError>(()) && final(self).is_mock()
                && final(self).mock_view() == (MockCharacteristicView {
                value: Some(values@),
                ..old(self).mock_view()
            })),
            !old(self).is_mock() ==> (r == Err::<(), BluetoothError>(BluetoothError::NotSupported)
                && *final(self) == *old(self)),
    {
        match self {
            BluetoothGATTCharacteristic::Empty(characteristic) => characteristic.write_value(values),
            BluetoothGATTCharacteristic::Mock(m) => {
                m.value = Some(values);
                Ok(())
            },
        }
    }

    /// Starts notifications; the mock backend records the characteristic as
    /// notifying.
    pub fn start_notify(&mut self) -> (r: Result<(), BluetoothError>)
        ensures
            old(self).is_mock() ==> (r == Ok::<(), BluetoothError>(()) && final(self).is_mock()
                && final(self).mock_view() == (MockCharacteristicView {
                is_notifying: true,
                ..old(self).mock_view()
            })),
            !old(self).is_mock() ==> (r == Err::<(), BluetoothError>(BluetoothError::NotSupported)
                && *final(self) == *old(self)),
    {
        match self {
            BluetoothGATTCharacteristic::Empty(characteristic) => characteristic.start_notify(),
            BluetoothGATTCharacteristic::Mock(m) => {
                m.is_notifying = true;
                Ok(())
            },
        }
    }

    /// Stops notifications; the mock backend records the characteristic as
    /// not notifying.
    pub fn stop_notify(&mut self) -> (r: Result<(), BluetoothError>)
        ensures
            old(self).is_mock() ==> (r == Ok::<(), BluetoothError>(()) && final(self).is_mock()
                && final(self).mock_view() == (MockCharacteristicView {
                is_notifying: false,
                ..old(self).mock_view()
            })),
            !old(self).is_mock() ==> (r == Err::<(), BluetoothError>(BluetoothError::NotSupported)
                && *final(self) == *old(self)),
    {
        match self {
            BluetoothGATTCharacteristic::Empty(characteristic) => characteristic.stop_notify(),
            BluetoothGATTCharacteristic::Mock(m) => {
                m.is_notifying = false;
                Ok(())
            },
        }
    }
}

impl BluetoothGATTDescriptor {
    /// A fresh mock GATT descriptor registered with the given mock
    /// characteristic; a non-mock characteristic rejects the call.  When the
    /// characteristic already holds a descriptor with this identifier, that
    /// descriptor is returned instead and the characteristic is unchanged.
    pub fn create_mock_descriptor(
        characteristic: &mut BluetoothGATTCharacteristic,
        descriptor: String,
    ) -> (r: Result<BluetoothGATTDescriptor, BluetoothError>)
        ensures
            r matches Ok(d) ==> d.is_mock() && old(characteristic).is_mock(),
            old(characteristic).is_mock() ==> (r matches Ok(d) && d.is_mock() && final(characteristic).is_mock() && ({
                let idx = find_descriptor_by_id(
                    old(characteristic).mock_view().gatt_descriptors,
                    descriptor@,
                    0,
                );
                if idx >= 0 {
                    final(characteristic).mock_view() == old(characteristic).mock_view()
                        && d.mock_view() == old(characteristic).mock_view().gatt_descriptors[idx]
                } else {
                    d.mock_view() == descriptor_new_empty_view(descriptor@) && final(characteristic).mock_view() == (MockCharacteristicView {
                        gatt_descriptors: old(characteristic).mock_view().gatt_descriptors.push(
                            descriptor_new_empty_view(descriptor@),
                        ),
                        ..old(characteristic).mock_view()
                    })
                }
            })),
            !old(characteristic).is_mock() ==> (r == Err::<
                BluetoothGATTDescriptor,
                BluetoothError,
            >(BluetoothError::NotSupportedOnMock) && *final(characteristic) == *old(characteristic)),
    {
        match characteristic {
            BluetoothGATTCharacteristic::Mock(fake_characteristic) => Ok(
                BluetoothGATTDescriptor::Mock(
                    MockDescriptor::new_empty(fake_characteristic, descriptor),
                ),
            ),
            _ => Err(BluetoothError::NotSupportedOnMock),
        }
    }

    /// The descriptor's identifier; the stub backend has the empty
    /// identifier.
    pub fn get_id(&self) -> (r: String)
        ensures
            self.is_mock() ==> r@ == self.mock_view().id,
            !self.is_mock() ==> r@ == Seq::<char>::empty(),
    {
        match self {
            BluetoothGATTDescriptor::Empty(descriptor) => descriptor.get_id(),
            BluetoothGATTDescriptor::Mock(m) => m.id.clone(),
        }
    }

    /// Sets the mock descriptor's identifier; on a non-mock handle the call
    /// is silently ignored.
    pub fn set_id(&mut self, id: String)
        ensures
            old(self).is_mock() ==> final(self).is_mock() && final(self).mock_view()
                == (MockDescriptorView { id: id@, ..old(self).mock_view() }),
            !old(self).is_mock() ==> *final(self) == *old(self),
    {
        match self {
            BluetoothGATTDescriptor::Mock(m) => {
                m.id = id;
            },
            _ => {},
        }
    }

    /// The descriptor's UUID.
    pub fn get_uuid(&self) -> (r: Result<String, BluetoothError>)
        ensures
            self.is_mock() ==> (r matches Ok(s) && s@ == self.mock_view().uuid),
            !self.is_mock() ==> r == Err::<String, BluetoothError>(BluetoothError::NotSupported),
    {
        match self {
            BluetoothGATTDescriptor::Empty(descriptor) => descriptor.get_uuid(),
            BluetoothGATTDescriptor::Mock(m) => Ok(m.uuid.clone()),
        }
    }

    /// Sets the mock descriptor's UUID; a test-only operation that a
    /// non-mock handle rejects.
    pub fn set_uuid(&mut self, uuid: String) -> (r: Result<(), BluetoothError>)
        ensures
            old(self).is_mock() ==> (r == Ok::<(), BluetoothError>(()) && final(self).is_mock()
                && final(self).mock_view() == (MockDescriptorView {
                uuid: uuid@,
                ..old(self).mock_view()
            })),
            !old(self).is_mock() ==> (r == Err::<(), BluetoothError>(
                BluetoothError::NotSupportedOnReal,
            ) && *final(self) == *old(self)),
    {
        match self {
            BluetoothGATTDescriptor::Mock(m) => {
                m.uuid = uuid;
                Ok(())
            },
            _ => Err(BluetoothError::NotSupportedOnReal),
        }
    }

    /// The descriptor's cached value, which the mock backend reports only
    /// once one has been set or written.
    pub fn get_value(&self) -> (r: Result<Vec<u8>, BluetoothError>)
        ensures
            self.is_mock() ==> (match self.mock_view().value {
                Some(v) => r matches Ok(b) && b@ == v,
                None => r == Err::<Vec<u8>, BluetoothError>(BluetoothError::ValueNotSet),
            }),
            !self.is_mock() ==> r == Err::<Vec<u8>, BluetoothError>(BluetoothError::NotSupported),
    {
        match self {
            BluetoothGATTDescriptor::Empty(descriptor) => descriptor.get_value(),
            BluetoothGATTDescriptor::Mock(m) => match &m.value {
                Some(v) => Ok(clone_byte_vec(v)),
                None => Err(BluetoothError::ValueNotSet),
            },
        }
    }

    /// Sets the mock descriptor's cached value; a test-only operation that a
    /// non-mock handle rejects.
    pub fn set_value(&mut self, value: Vec<u8>) -> (r: Result<(), BluetoothError>)
        ensures
            old(self).is_mock() ==> (r == Ok::<(), BluetoothError>(()) && final(self).is_mock()
                && final(self).mock_view() == (MockDescriptorView {
                value: Some(value@),
                ..old(self).mock_view()
            })),
            !old(self).is_mock() ==> (r == Err::<(), BluetoothError>(
                BluetoothError::NotSupportedOnReal,
            ) && *final(self) == *old(self)),
    {
        match self {
            BluetoothGATTDescriptor::Mock(m) => {
                m.value = Some(value);
                Ok(())
            },
            _ => Err(BluetoothError::NotSupportedOnReal),
        }
    }

    /// The descriptor's property flags.
    pub fn get_flags(&self) -> (r: Result<Vec<String>, BluetoothError>)
        ensures
            self.is_mock() ==> (r matches Ok(f) && f.deep_view() == self.mock_view().flags),
            !self.is_mock() ==> r == Err::<Vec<String>, BluetoothError>(
                BluetoothError::NotSupported,
            ),
    {
        match self {
            BluetoothGATTDescriptor::Empty(descriptor) => descriptor.get_flags(),
            BluetoothGATTDescriptor::Mock(m) => Ok(clone_string_vec(&m.flags)),
        }
    }

    /// Sets the mock descriptor's property flags; a test-only operation that
    /// a non-mock handle rejects.
    pub fn set_flags(&mut self, flags: Vec<String>) -> (r: Result<(), BluetoothError>)
        ensures
            old(self).is_mock() ==> (r == Ok::<(), BluetoothError>(()) && final(self).is_mock()
                && final(self).mock_view() == (MockDescriptorView {
                flags: flags.deep_view(),
                ..old(self).mock_view()
            })),
            !old(self).is_mock() ==> (r == Err::<(), BluetoothError>(
                BluetoothError::NotSupportedOnReal,
            ) && *final(self) == *old(self)),
    {
        match self {
            BluetoothGATTDescriptor::Mock(m) => {
                m.flags = flags;
                Ok(())
            },
            _ => Err(BluetoothError::NotSupportedOnReal),
        }
    }

    /// Reads the descriptor's value; the mock backend reports its cached
    /// value, or a failure when none has been set.
    pub fn read_value(&self) -> (r: Result<Vec<u8>, BluetoothError>)
        ensures
            self.is_mock() ==> (match self.mock_view().value {
                Some(v) => r matches Ok(b) && b@ == v,
                None => r == Err::<Vec<u8>, BluetoothError>(BluetoothError::ValueNotSet),
            }),
            !self.is_mock() ==> r == Err::<Vec<u8>, BluetoothError>(BluetoothError::NotSupported),
    {
        match self {
            BluetoothGATTDescriptor::Empty(descriptor) => descriptor.read_value(),
            BluetoothGATTDescriptor::Mock(m) => match &m.value {
                Some(v) => Ok(clone_byte_vec(v)),
                None => Err(BluetoothError::ValueNotSet),
            },
        }
    }

    /// Writes the descriptor's value; the mock backend caches it.
    pub fn write_value(&mut self, values: Vec<u8>) -> (r: Result<(), BluetoothError>)
        ensures
            old(self).is_mock() ==> (r == Ok::<(), BluetoothError>(()) && final(self).is_mock()
                && final(self).mock_view() == (MockDescriptorView {
                value: Some(values@),
                ..old(self).mock_view()
            })),
            !old(self).is_mock() ==> (r == Err::<(), BluetoothError>(BluetoothError::NotSupported)
                && *final(self) == *old(self)),
    {
        match self {
            BluetoothGATTDescriptor::Empty(descriptor) => descriptor.write_value(values),
            BluetoothGATTDescriptor::Mock(m) => {
                m.value = Some(values);
                Ok(())
            },
        }
    }
}

} // verus!
