//! The mock backend: a fake Bluetooth stack whose whole state is plain data.
//!
//! Each entity of the mock backend is a record of plain values (strings,
//! flags, numbers, byte strings and child records).  A handle owns its record
//! outright, so every operation's effect is stated exactly over the record's
//! mathematical view.  The defaults that `new_empty` establishes, and the
//! rules for connecting, disconnecting and registering devices, follow the
//! fake adapter/device semantics of the blurmock stack.

use vstd::prelude::*;

verus! {

/// The mathematical view of a mock adapter.
#[verifier::ext_equal]
pub ghost struct MockAdapterView {
    pub id: Seq<char>,
    pub is_present: bool,
    pub is_powered: bool,
    pub can_start_discovery: bool,
    pub can_stop_discovery: bool,
    pub devices: Seq<MockDeviceView>,
    pub ad_datas: Seq<Seq<char>>,
    pub address: Seq<char>,
    pub name: Seq<char>,
    pub alias: Seq<char>,
    pub class: u32,
    pub is_discoverable: bool,
    pub is_pairable: bool,
    pub pairable_timeout: u32,
    pub discoverable_timeout: u32,
    pub is_discovering: bool,
    pub uuids: Seq<Seq<char>>,
    pub modalias: Seq<char>,
}

/// The mathematical view of a mock device.
#[verifier::ext_equal]
pub ghost struct MockDeviceView {
    pub id: Seq<char>,
    pub address: Seq<char>,
    pub appearance: Option<u16>,
    pub class: u32,
    pub gatt_services: Seq<MockServiceView>,
    pub is_paired: bool,
    pub is_connectable: bool,
    pub is_connected: bool,
    pub is_trusted: bool,
    pub is_blocked: bool,
    pub is_legacy_pairing: bool,
    pub uuids: Seq<Seq<char>>,
    pub name: Option<Seq<char>>,
    pub icon: Seq<char>,
    pub alias: Seq<char>,
    pub rssi: Option<i16>,
    pub tx_power: Option<i16>,
    pub modalias: Seq<char>,
}

/// The mathematical view of a mock GATT service.
#[verifier::ext_equal]
pub ghost struct MockServiceView {
    pub id: Seq<char>,
    pub uuid: Seq<char>,
    pub is_primary: bool,
    pub includes: Seq<Seq<char>>,
    pub gatt_characteristics: Seq<MockCharacteristicView>,
}

/// The mathematical view of a mock GATT characteristic.
#[verifier::ext_equal]
pub ghost struct MockCharacteristicView {
    pub id: Seq<char>,
    pub uuid: Seq<char>,
    pub value: Option<Seq<u8>>,
    pub is_notifying: bool,
    pub flags: Seq<Seq<char>>,
    pub gatt_descriptors: Seq<MockDescriptorView>,
}

/// The mathematical view of a mock GATT descriptor.
#[verifier::ext_equal]
pub ghost struct MockDescriptorView {
    pub id: Seq<char>,
    pub uuid: Seq<char>,
    pub value: Option<Seq<u8>>,
    pub flags: Seq<Seq<char>>,
}

/// The state of a mock adapter.
#[derive(Clone, Debug)]
pub struct MockAdapter {
    pub id: String,
    pub is_present: bool,
    pub is_powered: bool,
    pub can_start_discovery: bool,
    pub can_stop_discovery: bool,
    pub devices: Vec<MockDevice>,
    pub ad_datas: Vec<String>,
    pub address: String,
    pub name: String,
    pub alias: String,
    pub class: u32,
    pub is_discoverable: bool,
    pub is_pairable: bool,
    pub pairable_timeout: u32,
    pub discoverable_timeout: u32,
    pub is_discovering: bool,
    pub uuids: Vec<String>,
    pub modalias: String,
}

/// The state of a mock device.
#[derive(Clone, Debug)]
pub struct MockDevice {
    pub id: String,
    pub address: String,
    pub appearance: Option<u16>,
    pub class: u32,
    pub gatt_services: Vec<MockService>,
    pub is_paired: bool,
    pub is_connectable: bool,
    pub is_connected: bool,
    pub is_trusted: bool,
    pub is_blocked: bool,
    pub is_legacy_pairing: bool,
    pub uuids: Vec<String>,
    pub name: Option<String>,
    pub icon: String,
    pub alias: String,
    pub rssi: Option<i16>,
    pub tx_power: Option<i16>,
    pub modalias: String,
}

/// The state of a mock GATT service.
#[derive(Clone, Debug)]
pub struct MockService {
    pub id: String,
    pub uuid: String,
    pub is_primary: bool,
    pub includes: Vec<String>,
    pub gatt_characteristics: Vec<MockCharacteristic>,
}

/// The state of a mock GATT characteristic.
#[derive(Clone, Debug)]
pub struct MockCharacteristic {
    pub id: String,
    pub uuid: String,
    pub value: Option<Vec<u8>>,
    pub is_notifying: bool,
    pub flags: Vec<String>,
    pub gatt_descriptors: Vec<MockDescriptor>,
}

/// The state of a mock GATT descriptor.
#[derive(Clone, Debug)]
pub struct MockDescriptor {
    pub id: String,
    pub uuid: String,
    pub value: Option<Vec<u8>>,
    pub flags: Vec<String>,
}

/// A mock discovery session: it remembers whether the adapter allowed
/// discovery to start and to stop when the session was created.
#[derive(Clone, Copy, Debug)]
pub struct MockDiscoverySession {
    pub can_start_discovery: bool,
    pub can_stop_discovery: bool,
}

/// The view of an optional string.
pub open spec fn opt_string_view(o: Option<String>) -> Option<Seq<char>> {
    match o {
        Some(s) => Some(s@),
        None => None,
    }
}

/// The view of an optional byte string.
pub open spec fn opt_bytes_view(o: Option<Vec<u8>>) -> Option<Seq<u8>> {
    match o {
        Some(v) => Some(v@),
        None => None,
    }
}

impl View for MockAdapter {
    type V = MockAdapterView;

    open spec fn view(&self) -> MockAdapterView {
        MockAdapterView {
            id: self.id@,
            is_present: self.is_present,
            is_powered: self.is_powered,
            can_start_discovery: self.can_start_discovery,
            can_stop_discovery: self.can_stop_discovery,
            devices: self.devices@.map_values(|d: MockDevice| d@),
            ad_datas: self.ad_datas.deep_view(),
            address: self.address@,
            name: self.name@,
            alias: self.alias@,
            class: self.class,
            is_discoverable: self.is_discoverable,
            is_pairable: self.is_pairable,
            pairable_timeout: self.pairable_timeout,
            discoverable_timeout: self.discoverable_timeout,
            is_discovering: self.is_discovering,
            uuids: self.uuids.deep_view(),
            modalias: self.modalias@,
        }
    }
}

impl View for MockDevice {
    type V = MockDeviceView;

    open spec fn view(&self) -> MockDeviceView {
        MockDeviceView {
            id: self.id@,
            address: self.address@,
            appearance: self.appearance,
            class: self.class,
            gatt_services: self.gatt_services@.map_values(|s: MockService| s@),
            is_paired: self.is_paired,
            is_connectable: self.is_connectable,
            is_connected: self.is_connected,
            is_trusted: self.is_trusted,
            is_blocked: self.is_blocked,
            is_legacy_pairing: self.is_legacy_pairing,
            uuids: self.uuids.deep_view(),
            name: opt_string_view(self.name),
            icon: self.icon@,
            alias: self.alias@,
            rssi: self.rssi,
            tx_power: self.tx_power,
            modalias: self.modalias@,
        }
    }
}

impl View for MockService {
    type V = MockServiceView;

    open spec fn view(&self) -> MockServiceView {
        MockServiceView {
            id: self.id@,
            uuid: self.uuid@,
            is_primary: self.is_primary,
            includes: self.includes.deep_view(),
            gatt_characteristics: self.gatt_characteristics@.map_values(|c: MockCharacteristic| c@),
        }
    }
}

impl View for MockCharacteristic {
    type V = MockCharacteristicView;

    open spec fn view(&self) -> MockCharacteristicView {
        MockCharacteristicView {
            id: self.id@,
            uuid: self.uuid@,
            value: opt_bytes_view(self.value),
            is_notifying: self.is_notifying,
            flags: self.flags.deep_view(),
            gatt_descriptors: self.gatt_descriptors@.map_values(|d: MockDescriptor| d@),
        }
    }
}

impl View for MockDescriptor {
    type V = MockDescriptorView;

    open spec fn view(&self) -> MockDescriptorView {
        MockDescriptorView {
            id: self.id@,
            uuid: self.uuid@,
            value: opt_bytes_view(self.value),
            flags: self.flags.deep_view(),
        }
    }
}

/// The state a fresh mock adapter starts in.
pub open spec fn adapter_new_empty_view() -> MockAdapterView {
    MockAdapterView {
        id: Seq::<char>::empty(),
        is_present: true,
        is_powered: false,
        can_start_discovery: true,
        can_stop_discovery: true,
        devices: Seq::<MockDeviceView>::empty(),
        ad_datas: Seq::<Seq<char>>::empty(),
        address: Seq::<char>::empty(),
        name: Seq::<char>::empty(),
        alias: Seq::<char>::empty(),
        class: 0,
        is_discoverable: false,
        is_pairable: false,
        pairable_timeout: 0,
        discoverable_timeout: 0,
        is_discovering: false,
        uuids: Seq::<Seq<char>>::empty(),
        modalias: Seq::<char>::empty(),
    }
}

/// The state a fresh mock device starts in, given its identifier.
pub open spec fn device_new_empty_view(id: Seq<char>) -> MockDeviceView {
    MockDeviceView {
        id: id,
        address: Seq::<char>::empty(),
        appearance: None,
        class: 0,
        gatt_services: Seq::<MockServiceView>::empty(),
        is_paired: false,
        is_connectable: false,
        is_connected: false,
        is_trusted: false,
        is_blocked: false,
        is_legacy_pairing: false,
        uuids: Seq::<Seq<char>>::empty(),
        name: None,
        icon: Seq::<char>::empty(),
        alias: Seq::<char>::empty(),
        rssi: None,
        tx_power: None,
        modalias: Seq::<char>::empty(),
    }
}

/// The state a fresh mock GATT service starts in, given its identifier.
/// A fresh mock service counts as primary.
pub open spec fn service_new_empty_view(id: Seq<char>) -> MockServiceView {
    MockServiceView {
        id: id,
        uuid: Seq::<char>::empty(),
        is_primary: true,
        includes: Seq::<Seq<char>>::empty(),
        gatt_characteristics: Seq::<MockCharacteristicView>::empty(),
    }
}

/// The state a fresh mock GATT characteristic starts in, given its identifier.
pub open spec fn characteristic_new_empty_view(id: Seq<char>) -> MockCharacteristicView {
    MockCharacteristicView {
        id: id,
        uuid: Seq::<char>::empty(),
        value: None,
        is_notifying: false,
        flags: Seq::<Seq<char>>::empty(),
        gatt_descriptors: Seq::<MockDescriptorView>::empty(),
    }
}

/// The state a fresh mock GATT descriptor starts in, given its identifier.
pub open spec fn descriptor_new_empty_view(id: Seq<char>) -> MockDescriptorView {
    MockDescriptorView {
        id: id,
        uuid: Seq::<char>::empty(),
        value: None,
        flags: Seq::<Seq<char>>::empty(),
    }
}

/// A freshly constructed mock entity carries the identifier its constructor
/// was given, unchanged: the default device, service, characteristic and
/// descriptor states all keep their identifier.
pub proof fn lemma_fresh_mock_entity_keeps_id(id: Seq<char>)
    ensures
        device_new_empty_view(id).id == id,
        service_new_empty_view(id).id == id,
        characteristic_new_empty_view(id).id == id,
        descriptor_new_empty_view(id).id == id,
{
}

/// The first position at or after `from` of a device with the given
/// identifier, or -1 when none has it.
pub open spec fn find_device_by_id(devs: Seq<MockDeviceView>, id: Seq<char>, from: int) -> int
    decreases devs.len() - from,
    when 0 <= from <= devs.len()
{
    if from >= devs.len() {
        -1
    } else if devs[from].id == id {
        from
    } else {
        find_device_by_id(devs, id, from + 1)
    }
}

/// The first position at or after `from` of a device with the given
/// address, or -1 when none has it.
pub open spec fn find_device_by_address(devs: Seq<MockDeviceView>, address: Seq<char>, from: int) -> int
    decreases devs.len() - from,
    when 0 <= from <= devs.len()
{
    if from >= devs.len() {
        -1
    } else if devs[from].address == address {
        from
    } else {
        find_device_by_address(devs, address, from + 1)
    }
}

/// The first position at or after `from` of a service with the given
/// identifier, or -1 when none has it.
pub open spec fn find_service_by_id(svcs: Seq<MockServiceView>, id: Seq<char>, from: int) -> int
    decreases svcs.len() - from,
    when 0 <= from <= svcs.len()
{
    if from >= svcs.len() {
        -1
    } else if svcs[from].id == id {
        from
    } else {
        find_service_by_id(svcs, id, from + 1)
    }
}

/// The first position at or after `from` of a characteristic with the given
/// identifier, or -1 when none has it.
pub open spec fn find_characteristic_by_id(
    chars: Seq<MockCharacteristicView>,
    id: Seq<char>,
    from: int,
) -> int
    decreases chars.len() - from,
    when 0 <= from <= chars.len()
{
    if from >= chars.len() {
        -1
    } else if chars[from].id == id {
        from
    } else {
        find_characteristic_by_id(chars, id, from + 1)
    }
}

/// The first position at or after `from` of a descriptor with the given
/// identifier, or -1 when none has it.
pub open spec fn find_descriptor_by_id(
    descs: Seq<MockDescriptorView>,
    id: Seq<char>,
    from: int,
) -> int
    decreases descs.len() - from,
    when 0 <= from <= descs.len()
{
    if from >= descs.len() {
        -1
    } else if descs[from].id == id {
        from
    } else {
        find_descriptor_by_id(descs, id, from + 1)
    }
}

/// The search by address succeeds exactly when some device at or after
/// `from` carries the address; when it succeeds it names the first such
/// device's position.
pub proof fn lemma_find_device_by_address_spec(
    devs: Seq<MockDeviceView>,
    address: Seq<char>,
    from: int,
)
    requires
        0 <= from <= devs.len(),
    ensures
        find_device_by_address(devs, address, from) >= 0 <==> (exists|i: int|
            from <= i < devs.len() && devs[i].address == address),
        find_device_by_address(devs, address, from) >= 0 ==> ({
            let idx = find_device_by_address(devs, address, from);
            from <= idx < devs.len() && devs[idx].address == address && (forall|j: int|
                from <= j < idx ==> devs[j].address != address)
        }),
    decreases devs.len() - from,
{
    if from < devs.len() && devs[from].address != address {
        lemma_find_device_by_address_spec(devs, address, from + 1);
    }
}

/// Copies a vector of strings, keeping every element.
pub(crate) fn clone_string_vec(v: &Vec<String>) -> (r: Vec<String>)
    ensures
        r@ == v@,
{
    let mut r: Vec<String> = Vec::new();
    let mut i: usize = 0;
    while i < v.len()
        invariant
            i <= v.len(),
            r@ == v@.take(i as int),
        decreases v.len() - i,
    {
        r.push(v[i].clone());
        proof {
            assert(r@ =~= v@.take(i + 1 as int));
        }
        i += 1;
    }
    proof {
        assert(r@ =~= v@);
    }
    r
}

/// Copies a byte string, keeping every byte.
pub(crate) fn clone_byte_vec(v: &Vec<u8>) -> (r: Vec<u8>)
    ensures
        r@ == v@,
{
    let mut r: Vec<u8> = Vec::new();
    let mut i: usize = 0;
    while i < v.len()
        invariant
            i <= v.len(),
            r@ == v@.take(i as int),
        decreases v.len() - i,
    {
        r.push(v[i]);
        proof {
            assert(r@ =~= v@.take(i + 1 as int));
        }
        i += 1;
    }
    proof {
        assert(r@ =~= v@);
    }
    r
}

/// Copies an optional byte string.
fn clone_opt_bytes(v: &Option<Vec<u8>>) -> (r: Option<Vec<u8>>)
    ensures
        opt_bytes_view(r) == opt_bytes_view(*v),
{
    match v {
        Some(b) => Some(clone_byte_vec(b)),
        None => None,
    }
}

impl MockAdapter {
    /// A fresh mock adapter holding the default state.
    pub fn new_empty() -> (r: MockAdapter)
        ensures
            r@ == adapter_new_empty_view(),
    {
        let r = MockAdapter {
            id: String::new(),
            is_present: true,
            is_powered: false,
            can_start_discovery: true,
            can_stop_discovery: true,
            devices: Vec::new(),
            ad_datas: Vec::new(),
            address: String::new(),
            name: String::new(),
            alias: String::new(),
            class: 0,
            is_discoverable: false,
            is_pairable: false,
            pairable_timeout: 0,
            discoverable_timeout: 0,
            is_discovering: false,
            uuids: Vec::new(),
            modalias: String::new(),
        };
        proof {
            assert(r@ =~= adapter_new_empty_view());
        }
        r
    }
}

impl MockDevice {
    /// A fresh mock device registered with the given adapter.
    ///
    /// When the adapter already holds a device with this identifier, that
    /// device's state is returned and the adapter is left unchanged;
    /// otherwise a device in the default state is registered and returned.
    pub fn new_empty(adapter: &mut MockAdapter, device_id: String) -> (r: MockDevice)
        ensures
            ({
                let idx = find_device_by_id(old(adapter)@.devices, device_id@, 0);
                if idx >= 0 {
                    final(adapter)@ == old(adapter)@ && r@ == old(adapter)@.devices[idx]
                } else {
                    r@ == device_new_empty_view(device_id@)
                    && final(adapter)@ == (MockAdapterView {
                        devices: old(adapter)@.devices.push(device_new_empty_view(device_id@)),
                        ..old(adapter)@
                    })
                }
            }),
    {
        let n = adapter.devices.len();
        let mut i: usize = 0;
        while i < n
            invariant
                i <= n,
                n == adapter.devices.len(),
                *adapter == *old(adapter),
                find_device_by_id(adapter@.devices, device_id@, 0)
                    == find_device_by_id(adapter@.devices, device_id@, i as int),
            decreases n - i,
        {
            if adapter.devices[i].id == device_id {
                return adapter.devices[i].duplicate();
            }
            i += 1;
        }
        let fresh = MockDevice {
            id: device_id,
            address: String::new(),
            appearance: None,
            class: 0,
            gatt_services: Vec::new(),
            is_paired: false,
            is_connectable: false,
            is_connected: false,
            is_trusted: false,
            is_blocked: false,
            is_legacy_pairing: false,
            uuids: Vec::new(),
            name: None,
            icon: String::new(),
            alias: String::new(),
            rssi: None,
            tx_power: None,
            modalias: String::new(),
        };
        let r = fresh.duplicate();
        adapter.devices.push(fresh);
        proof {
            assert(r@ =~= device_new_empty_view(r@.id));
            assert(adapter@.devices =~= old(adapter)@.devices.push(r@));
            assert(adapter@ =~= (MockAdapterView {
                devices: old(adapter)@.devices.push(device_new_empty_view(r@.id)),
                ..old(adapter)@
            }));
        }
        r
    }

    /// The state of the first GATT service with the given identifier, or
    /// nothing when the device holds none.
    pub fn get_gatt_service(&self, id: &String) -> (r: Option<MockService>)
        ensures
            ({
                let idx = find_service_by_id(self@.gatt_services, id@, 0);
                if idx >= 0 {
                    r matches Some(s) && s@ == self@.gatt_services[idx]
                } else {
                    r is None
                }
            }),
    {
        let n = self.gatt_services.len();
        let mut i: usize = 0;
        while i < n
            invariant
                i <= n,
                n == self.gatt_services.len(),
                find_service_by_id(self@.gatt_services, id@, 0)
                    == find_service_by_id(self@.gatt_services, id@, i as int),
            decreases n - i,
        {
            if self.gatt_services[i].id == *id {
                return Some(self.gatt_services[i].duplicate());
            }
            i += 1;
        }
        None
    }

    /// A copy of the device's state.
    pub fn duplicate(&self) -> (r: MockDevice)
        ensures
            r@ == self@,
    {
        let mut services: Vec<MockService> = Vec::new();
        let mut i: usize = 0;
        while i < self.gatt_services.len()
            invariant
                i <= self.gatt_services.len(),
                services@.len() == i,
                forall|j: int| 0 <= j < i ==> services@[j]@ == self.gatt_services@[j]@,
            decreases self.gatt_services.len() - i,
        {
            services.push(self.gatt_services[i].duplicate());
            i += 1;
        }
        let r = MockDevice {
            id: self.id.clone(),
            address: self.address.clone(),
            appearance: self.appearance,
            class: self.class,
            gatt_services: services,
            is_paired: self.is_paired,
            is_connectable: self.is_connectable,
            is_connected: self.is_connected,
            is_trusted: self.is_trusted,
            is_blocked: self.is_blocked,
            is_legacy_pairing: self.is_legacy_pairing,
            uuids: clone_string_vec(&self.uuids),
            name: match &self.name {
                Some(s) => Some(s.clone()),
                None => None,
            },
            icon: self.icon.clone(),
            alias: self.alias.clone(),
            rssi: self.rssi,
            tx_power: self.tx_power,
            modalias: self.modalias.clone(),
        };
        proof {
            assert forall|j: int| 0 <= j < r@.gatt_services.len()
                implies r@.gatt_services[j] == self@.gatt_services[j] by {
                assert(r@.gatt_services[j] == r.gatt_services@[j]@);
                assert(self@.gatt_services[j] == self.gatt_services@[j]@);
            }
            assert(r@.gatt_services =~= self@.gatt_services);
            assert(r@ =~= self@);
        }
        r
    }
}

impl MockService {
    /// A fresh mock GATT service registered with the given device.
    ///
    /// When the device already holds a service with this identifier, that
    /// service's state is returned and the device is left unchanged;
    /// otherwise a service in the default state is registered and returned.
    pub fn new_empty(device: &mut MockDevice, service_id: String) -> (r: MockService)
        ensures
            ({
                let idx = find_service_by_id(old(device)@.gatt_services, service_id@, 0);
                if idx >= 0 {
                    final(device)@ == old(device)@ && r@ == old(device)@.gatt_services[idx]
                } else {
                    r@ == service_new_empty_view(service_id@)
                    && final(device)@ == (MockDeviceView {
                        gatt_services: old(device)@.gatt_services.push(
                            service_new_empty_view(service_id@),
                        ),
                        ..old(device)@
                    })
                }
            }),
    {
        let n = device.gatt_services.len();
        let mut i: usize = 0;
        while i < n
            invariant
                i <= n,
                n == device.gatt_services.len(),
                *device == *old(device),
                find_service_by_id(device@.gatt_services, service_id@, 0)
                    == find_service_by_id(device@.gatt_services, service_id@, i as int),
            decreases n - i,
        {
            if device.gatt_services[i].id == service_id {
                return device.gatt_services[i].duplicate();
            }
            i += 1;
        }
        let fresh = MockService {
            id: service_id,
            uuid: String::new(),
            is_primary: true,
            includes: Vec::new(),
            gatt_characteristics: Vec::new(),
        };
        let r = fresh.duplicate();
        device.gatt_services.push(fresh);
        proof {
            assert(r@ =~= service_new_empty_view(r@.id));
            assert(device@.gatt_services =~= old(device)@.gatt_services.push(r@));
            assert(device@ =~= (MockDeviceView {
                gatt_services: old(device)@.gatt_services.push(service_new_empty_view(r@.id)),
                ..old(device)@
            }));
        }
        r
    }

    /// The state of the first characteristic with the given identifier, or
    /// nothing when the service holds none.
    pub fn get_gatt_characteristic(&self, id: &String) -> (r: Option<MockCharacteristic>)
        ensures
            ({
                let idx = find_characteristic_by_id(self@.gatt_characteristics, id@, 0);
                if idx >= 0 {
                    r matches Some(c) && c@ == self@.gatt_characteristics[idx]
                } else {
                    r is None
                }
            }),
    {
        let n = self.gatt_characteristics.len();
        let mut i: usize = 0;
        while i < n
            invariant
                i <= n,
                n == self.gatt_characteristics.len(),
                find_characteristic_by_id(self@.gatt_characteristics, id@, 0)
                    == find_characteristic_by_id(self@.gatt_characteristics, id@, i as int),
            decreases n - i,
        {
            if self.gatt_characteristics[i].id == *id {
                return Some(self.gatt_characteristics[i].duplicate());
            }
            i += 1;
        }
        None
    }

    /// A copy of the service's state.
    pub fn duplicate(&self) -> (r: MockService)
        ensures
            r@ == self@,
    {
        let mut characteristics: Vec<MockCharacteristic> = Vec::new();
        let mut i: usize = 0;
        while i < self.gatt_characteristics.len()
            invariant
                i <= self.gatt_characteristics.len(),
                characteristics@.len() == i,
                forall|j: int| 0 <= j < i ==> characteristics@[j]@ == self.gatt_characteristics@[j]@,
            decreases self.gatt_characteristics.len() - i,
        {
            characteristics.push(self.gatt_characteristics[i].duplicate());
            i += 1;
        }
        let r = MockService {
            id: self.id.clone(),
            uuid: self.uuid.clone(),
            is_primary: self.is_primary,
            includes: clone_string_vec(&self.includes),
            gatt_characteristics: characteristics,
        };
        proof {
            assert forall|j: int| 0 <= j < r@.gatt_characteristics.len()
                implies r@.gatt_characteristics[j] == self@.gatt_characteristics[j] by {
                assert(r@.gatt_characteristics[j] == r.gatt_characteristics@[j]@);
                assert(self@.gatt_characteristics[j] == self.gatt_characteristics@[j]@);
            }
            assert(r@.gatt_characteristics =~= self@.gatt_characteristics);
            assert(r@ =~= self@);
        }
        r
    }
}

impl MockCharacteristic {
    /// A fresh mock GATT characteristic registered with the given service.
    ///
    /// When the service already holds a characteristic with this identifier,
    /// that characteristic's state is returned and the service is left
    /// unchanged; otherwise a characteristic in the default state is
    /// registered and returned.
    pub fn new_empty(service: &mut MockService, characteristic_id: String) -> (r: MockCharacteristic)
        ensures
            ({
                let idx = find_characteristic_by_id(
                    old(service)@.gatt_characteristics,
                    characteristic_id@,
                    0,
                );
                if idx >= 0 {
                    final(service)@ == old(service)@
                    && r@ == old(service)@.gatt_characteristics[idx]
                } else {
                    r@ == characteristic_new_empty_view(characteristic_id@)
                    && final(service)@ == (MockServiceView {
                        gatt_characteristics: old(service)@.gatt_characteristics.push(
                            characteristic_new_empty_view(characteristic_id@),
                        ),
                        ..old(service)@
                    })
                }
            }),
    {
        let n = service.gatt_characteristics.len();
        let mut i: usize = 0;
        while i < n
            invariant
                i <= n,
                n == service.gatt_characteristics.len(),
                *service == *old(service),
                find_characteristic_by_id(service@.gatt_characteristics, characteristic_id@, 0)
                    == find_characteristic_by_id(
                    service@.gatt_characteristics,
                    characteristic_id@,
                    i as int,
                ),
            decreases n - i,
        {
            if service.gatt_characteristics[i].id == characteristic_id {
                return service.gatt_characteristics[i].duplicate();
            }
            i += 1;
        }
        let fresh = MockCharacteristic {
            id: characteristic_id,
            uuid: String::new(),
            value: None,
            is_notifying: false,
            flags: Vec::new(),
            gatt_descriptors: Vec::new(),
        };
        let r = fresh.duplicate();
        service.gatt_characteristics.push(fresh);
        proof {
            assert(r@ =~= characteristic_new_empty_view(r@.id));
            assert(service@.gatt_characteristics
                =~= old(service)@.gatt_characteristics.push(r@));
            assert(service@ =~= (MockServiceView {
                gatt_characteristics: old(service)@.gatt_characteristics.push(
                    characteristic_new_empty_view(r@.id),
                ),
                ..old(service)@
            }));
        }
        r
    }

    /// The state of the first descriptor with the given identifier, or
    /// nothing when the characteristic holds none.
    pub fn get_gatt_descriptor(&self, id: &String) -> (r: Option<MockDescriptor>)
        ensures
            ({
                let idx = find_descriptor_by_id(self@.gatt_descriptors, id@, 0);
                if idx >= 0 {
                    r matches Some(d) && d@ == self@.gatt_descriptors[idx]
                } else {
                    r is None
                }
            }),
    {
        let n = self.gatt_descriptors.len();
        let mut i: usize = 0;
        while i < n
            invariant
                i <= n,
                n == self.gatt_descriptors.len(),
                find_descriptor_by_id(self@.gatt_descriptors, id@, 0)
                    == find_descriptor_by_id(self@.gatt_descriptors, id@, i as int),
            decreases n - i,
        {
            if self.gatt_descriptors[i].id == *id {
                return Some(self.gatt_descriptors[i].duplicate());
            }
            i += 1;
        }
        None
    }

    /// A copy of the characteristic's state.
    pub fn duplicate(&self) -> (r: MockCharacteristic)
        ensures
            r@ == self@,
    {
        let mut descriptors: Vec<MockDescriptor> = Vec::new();
        let mut i: usize = 0;
        while i < self.gatt_descriptors.len()
            invariant
                i <= self.gatt_descriptors.len(),
                descriptors@.len() == i,
                forall|j: int| 0 <= j < i ==> descriptors@[j]@ == self.gatt_descriptors@[j]@,
            decreases self.gatt_descriptors.len() - i,
        {
            descriptors.push(self.gatt_descriptors[i].duplicate());
            i += 1;
        }
        let r = MockCharacteristic {
            id: self.id.clone(),
            uuid: self.uuid.clone(),
            value: clone_opt_bytes(&self.value),
            is_notifying: self.is_notifying,
            flags: clone_string_vec(&self.flags),
            gatt_descriptors: descriptors,
        };
        proof {
            assert forall|j: int| 0 <= j < r@.gatt_descriptors.len()
                implies r@.gatt_descriptors[j] == self@.gatt_descriptors[j] by {
                assert(r@.gatt_descriptors[j] == r.gatt_descriptors@[j]@);
                assert(self@.gatt_descriptors[j] == self.gatt_descriptors@[j]@);
            }
            assert(r@.gatt_descriptors =~= self@.gatt_descriptors);
            assert(r@ =~= self@);
        }
        r
    }
}

impl MockDescriptor {
    /// A fresh mock GATT descriptor registered with the given characteristic.
    ///
    /// When the characteristic already holds a descriptor with this
    /// identifier, that descriptor's state is returned and the characteristic
    /// is left unchanged; otherwise a descriptor in the default state is
    /// registered and returned.
    pub fn new_empty(characteristic: &mut MockCharacteristic, descriptor_id: String) -> (r:
        MockDescriptor)
        ensures
            ({
                let idx = find_descriptor_by_id(
                    old(characteristic)@.gatt_descriptors,
                    descriptor_id@,
                    0,
                );
                if idx >= 0 {
                    final(characteristic)@ == old(characteristic)@
                    && r@ == old(characteristic)@.gatt_descriptors[idx]
                } else {
                    r@ == descriptor_new_empty_view(descriptor_id@)
                    && final(characteristic)@ == (MockCharacteristicView {
                        gatt_descriptors: old(characteristic)@.gatt_descriptors.push(
                            descriptor_new_empty_view(descriptor_id@),
                        ),
                        ..old(characteristic)@
                    })
                }
            }),
    {
        let n = characteristic.gatt_descriptors.len();
        let mut i: usize = 0;
        while i < n
            invariant
                i <= n,
                n == characteristic.gatt_descriptors.len(),
                *characteristic == *old(characteristic),
                find_descriptor_by_id(characteristic@.gatt_descriptors, descriptor_id@, 0)
                    == find_descriptor_by_id(
                    characteristic@.gatt_descriptors,
                    descriptor_id@,
                    i as int,
                ),
            decreases n - i,
        {
            if characteristic.gatt_descriptors[i].id == descriptor_id {
                return characteristic.gatt_descriptors[i].duplicate();
            }
            i += 1;
        }
        let fresh = MockDescriptor {
            id: descriptor_id,
            uuid: String::new(),
            value: None,
            flags: Vec::new(),
        };
        let r = fresh.duplicate();
        characteristic.gatt_descriptors.push(fresh);
        proof {
            assert(r@ =~= descriptor_new_empty_view(r@.id));
            assert(characteristic@.gatt_descriptors
                =~= old(characteristic)@.gatt_descriptors.push(r@));
            assert(characteristic@ =~= (MockCharacteristicView {
                gatt_descriptors: old(characteristic)@.gatt_descriptors.push(
                    descriptor_new_empty_view(r@.id),
                ),
                ..old(characteristic)@
            }));
        }
        r
    }

    /// A copy of the descriptor's state.
    pub fn duplicate(&self) -> (r: MockDescriptor)
        ensures
            r@ == self@,
    {
        let r = MockDescriptor {
            id: self.id.clone(),
            uuid: self.uuid.clone(),
            value: clone_opt_bytes(&self.value),
            flags: clone_string_vec(&self.flags),
        };
        proof {
            assert(r@ =~= self@);
        }
        r
    }
}

} // verus!
