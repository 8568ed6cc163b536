//! Inspecting and changing the link-layer address of a network interface:
//! the decisions of the adapter listing, of the address change and of the
//! hardware-address query, stated and proved over plain values. Whoever
//! uses the library talks to the operating system and hands over what it
//! answered.

use vstd::prelude::*;

pub mod error;
pub mod hardware;
pub mod linux;
pub mod mac;
pub mod mutator;
pub mod request;
pub mod vendor;
pub mod windows;

pub use crate::error::{LinuxMacchangerError, MacchangerError, MutationError, Stage};
pub use crate::mac::{generate_random_mac, MacAddress};

use crate::linux::{LinuxAdapter, LinuxInterface, RawAdapterRecord};
use crate::mutator::Mutator;
use crate::request::EthtoolRequest;
use crate::windows::{RawWindowsRecord, StoredValue, WindowsAdapter, WindowsMutator};

verus! {

/// A live, addressable network endpoint, as one enumeration found it.
#[derive(Clone, Debug, PartialEq, Eq)]
pub struct Interface {
    pub name: String,
    pub mac: MacAddress,
}

/// The hardware or virtual device behind an interface, by its descriptive
/// name.
#[derive(Clone, Debug, PartialEq, Eq)]
pub struct Adapter {
    pub name: String,
}

/// An `Interface` as a mathematical value.
pub struct InterfaceView {
    pub name: Seq<char>,
    pub mac: Seq<u8>,
}

impl View for Interface {
    type V = InterfaceView;

    open spec fn view(&self) -> InterfaceView {
        InterfaceView { name: self.name@, mac: self.mac@ }
    }
}

impl View for Adapter {
    type V = Seq<char>;

    open spec fn view(&self) -> Seq<char> {
        self.name@
    }
}

/// What the enumerator of the host found, by platform.
#[derive(Clone, Debug, PartialEq, Eq)]
pub enum Enumeration {
    Linux(Vec<RawAdapterRecord>),
    Windows(Vec<RawWindowsRecord>),
    /// The host is neither platform.
    Unsupported,
}

/// An address change in progress, by platform.
#[derive(Clone, Debug, PartialEq, Eq)]
pub enum Change {
    Linux(Mutator),
    Windows(WindowsMutator),
}

/// What the host answered to the query for the hardware address, by
/// platform.
#[derive(Debug, PartialEq, Eq)]
pub enum HardwareAnswer {
    /// The payload of the permanent-address query, or the error number
    /// with which it was rejected.
    Linux(Result<EthtoolRequest, i32>),
    /// The saved original address.
    Windows(StoredValue),
    Unsupported,
}

impl Interface {
    /// The interface of a resolved record that stays with its list.
    pub fn from_linux(value: &LinuxInterface) -> (interface: Interface)
        ensures
            interface@ == (InterfaceView { name: value.name@, mac: value.adapter.mac@ }),
    {
        Interface { name: value.name.clone(), mac: value.adapter.mac }
    }

    /// The interface of an adapter that stays with its list.
    pub fn from_windows(value: &WindowsAdapter) -> (interface: Interface)
        ensures
            interface@ == (InterfaceView { name: value.name@, mac: value.mac_address@ }),
    {
        Interface { name: value.name.clone(), mac: value.mac_address }
    }
}

impl Adapter {
    /// The adapter of a resolved record that stays with its list.
    pub fn from_linux(value: &LinuxAdapter) -> (adapter: Adapter)
        ensures
            adapter@ == value.name@,
    {
        Adapter { name: value.name.clone() }
    }

    /// The adapter of a record of the registry platform that stays with
    /// its list.
    pub fn from_windows(value: &WindowsAdapter) -> (adapter: Adapter)
        ensures
            adapter@ == value.description@,
    {
        Adapter { name: value.description.clone() }
    }
}

/// The interface of an adapter of the registry platform: its operational
/// name and its address.
impl From<WindowsAdapter> for Interface {
    fn from(value: WindowsAdapter) -> (interface: Interface) {
        Interface { name: value.name, mac: value.mac_address }
    }
}

impl vstd::std_specs::convert::FromSpecImpl<WindowsAdapter> for Interface {
    open spec fn obeys_from_spec() -> bool {
        true
    }

    open spec fn from_spec(value: WindowsAdapter) -> Interface {
        Interface { name: value.name, mac: value.mac_address }
    }
}

/// The adapter of the registry platform, by its description.
impl From<WindowsAdapter> for Adapter {
    fn from(value: WindowsAdapter) -> (adapter: Adapter) {
        Adapter { name: value.description }
    }
}

impl vstd::std_specs::convert::FromSpecImpl<WindowsAdapter> for Adapter {
    open spec fn obeys_from_spec() -> bool {
        true
    }

    open spec fn from_spec(value: WindowsAdapter) -> Adapter {
        Adapter { name: value.description }
    }
}

/// The interface of a resolved record of the control-request platform.
impl From<LinuxInterface> for Interface {
    fn from(value: LinuxInterface) -> (interface: Interface) {
        Interface { name: value.name, mac: value.adapter.mac }
    }
}

impl vstd::std_specs::convert::FromSpecImpl<LinuxInterface> for Interface {
    open spec fn obeys_from_spec() -> bool {
        true
    }

    open spec fn from_spec(value: LinuxInterface) -> Interface {
        Interface { name: value.name, mac: value.adapter.mac }
    }
}

/// The adapter of the control-request platform, by the name that the
/// vendor database gives it.
impl From<LinuxAdapter> for Adapter {
    fn from(value: LinuxAdapter) -> (adapter: Adapter) {
        Adapter { name: value.name }
    }
}

impl vstd::std_specs::convert::FromSpecImpl<LinuxAdapter> for Adapter {
    open spec fn obeys_from_spec() -> bool {
        true
    }

    open spec fn from_spec(value: LinuxAdapter) -> Adapter {
        Adapter { name: value.name }
    }
}

/// The views of a list of interfaces.
pub open spec fn interface_views(interfaces: Seq<Interface>) -> Seq<InterfaceView> {
    interfaces.map_values(|i: Interface| i@)
}

/// The views of a list of adapters.
pub open spec fn adapter_views(adapters: Seq<Adapter>) -> Seq<Seq<char>> {
    adapters.map_values(|a: Adapter| a@)
}

/// The interfaces that the enumeration lists, where its scan succeeds.
pub open spec fn interfaces_of(found: Enumeration) -> Option<Seq<InterfaceView>> {
    match found {
        Enumeration::Linux(records) => if linux::some_failure(records@) {
            None
        } else {
            Some(
                linux::listed(records@).map_values(
                    |i: linux::InterfaceView| InterfaceView { name: i.name, mac: i.adapter.mac },
                ),
            )
        },
        Enumeration::Windows(records) => if windows::broken(records@) {
            None
        } else {
            Some(
                windows::listed(records@).map_values(
                    |a: windows::WindowsAdapterView|
                        InterfaceView { name: a.name, mac: a.mac_address },
                ),
            )
        },
        Enumeration::Unsupported => None,
    }
}

/// The descriptive names of the adapters that the enumeration lists,
/// where its scan succeeds.
pub open spec fn adapters_of(found: Enumeration) -> Option<Seq<Seq<char>>> {
    match found {
        Enumeration::Linux(records) => if linux::some_failure(records@) {
            None
        } else {
            Some(linux::listed(records@).map_values(|i: linux::InterfaceView| i.adapter.name))
        },
        Enumeration::Windows(records) => if windows::broken(records@) {
            None
        } else {
            Some(
                windows::listed(records@).map_values(
                    |a: windows::WindowsAdapterView| a.description,
                ),
            )
        },
        Enumeration::Unsupported => None,
    }
}

/// The failure with which a scan of the enumeration ends, where it fails:
/// the reason of the first record that cannot be resolved, `AdapterError`,
/// or `UnsupportedPlatform`.
pub open spec fn scan_failure(found: Enumeration, e: MacchangerError) -> bool {
    match found {
        Enumeration::Linux(records) => e matches MacchangerError::LinuxError(
            LinuxMacchangerError::AdapterNameLookup(text),
        ) && exists|at: int|
            linux::first_failure(records@, at) && linux::resolution(records@[at])
                == linux::Resolution::Failed(text@),
        Enumeration::Windows(records) => e == MacchangerError::AdapterError,
        Enumeration::Unsupported => e == MacchangerError::UnsupportedPlatform,
    }
}

/// Lists the interfaces of the host from what its enumerator found. A
/// failed scan returns its failure and no list.
pub fn retrieve_interfaces(found: &Enumeration) -> (r: Result<Vec<Interface>, MacchangerError>)
    ensures
        match r {
            Ok(interfaces) => interfaces_of(*found) == Some(interface_views(interfaces@)),
            Err(e) => interfaces_of(*found) is None && scan_failure(*found, e),
        },
{
    match found {
        Enumeration::Linux(records) => {
            let listed = match linux::list_interfaces(records) {
                Err(e) => { return Err(e); },
                Ok(listed) => listed,
            };
            let ghost want = interfaces_of(*found)->Some_0;
            let mut interfaces: Vec<Interface> = Vec::new();
            let mut i: usize = 0;
            while i < listed.len()
                invariant
                    i <= listed.len(),
                    want.len() == listed.len(),
                    forall|j: int| 0 <= j < want.len() ==> want[j] == (InterfaceView {
                        name: listed@[j].name@,
                        mac: listed@[j].adapter.mac@,
                    }),
                    interface_views(interfaces@) == want.take(i as int),
                decreases listed.len() - i,
            {
                let ghost before = interfaces@;
                let interface = Interface::from_linux(&listed[i]);
                interfaces.push(interface);
                assert(interface_views(interfaces@) == interface_views(before).push(interface@));
                assert(want.take(i + 1) == want.take(i as int).push(want[i as int]));
                i += 1;
            }
            assert(want.take(listed.len() as int) == want);
            Ok(interfaces)
        },
        Enumeration::Windows(records) => {
            let listed = match windows::list_interfaces(records) {
                Err(e) => { return Err(e); },
                Ok(listed) => listed,
            };
            let ghost want = interfaces_of(*found)->Some_0;
            let mut interfaces: Vec<Interface> = Vec::new();
            let mut i: usize = 0;
            while i < listed.len()
                invariant
                    i <= listed.len(),
                    want.len() == listed.len(),
                    forall|j: int| 0 <= j < want.len() ==> want[j] == (InterfaceView {
                        name: listed@[j].name@,
                        mac: listed@[j].mac_address@,
                    }),
                    interface_views(interfaces@) == want.take(i as int),
                decreases listed.len() - i,
            {
                let ghost before = interfaces@;
                let interface = Interface::from_windows(&listed[i]);
                interfaces.push(interface);
                assert(interface_views(interfaces@) == interface_views(before).push(interface@));
                assert(want.take(i + 1) == want.take(i as int).push(want[i as int]));
                i += 1;
            }
            assert(want.take(listed.len() as int) == want);
            Ok(interfaces)
        },
        Enumeration::Unsupported => Err(MacchangerError::UnsupportedPlatform),
    }
}

/// Lists the adapters of the host, by their descriptive names, from what
/// its enumerator found. A failed scan returns its failure and no list.
pub fn retrieve_adapters(found: &Enumeration) -> (r: Result<Vec<Adapter>, MacchangerError>)
    ensures
        match r {
            Ok(adapters) => adapters_of(*found) == Some(adapter_views(adapters@)),
            Err(e) => adapters_of(*found) is None && scan_failure(*found, e),
        },
{
    match found {
        Enumeration::Linux(records) => {
            let listed = match linux::list_adapters(records) {
                Err(e) => { return Err(e); },
                Ok(listed) => listed,
            };
            let ghost want = adapters_of(*found)->Some_0;
            assert(want.len() == listed.len() && forall|j: int|
                0 <= j < want.len() ==> want[j] == listed@[j].name@) by {
                assert(linux::adapter_views(listed@).len() == listed.len());
                assert forall|j: int| 0 <= j < want.len() implies want[j] == listed@[j].name@ by {
                    assert(linux::adapter_views(listed@)[j] == listed@[j]@);
                }
            }
            let mut adapters: Vec<Adapter> = Vec::new();
            let mut i: usize = 0;
            while i < listed.len()
                invariant
                    i <= listed.len(),
                    want.len() == listed.len(),
                    forall|j: int| 0 <= j < want.len() ==> want[j] == listed@[j].name@,
                    adapter_views(adapters@) == want.take(i as int),
                decreases listed.len() - i,
            {
                let ghost before = adapters@;
                let adapter = Adapter::from_linux(&listed[i]);
                adapters.push(adapter);
                assert(adapter_views(adapters@) == adapter_views(before).push(adapter@));
                assert(want.take(i + 1) == want.take(i as int).push(want[i as int]));
                i += 1;
            }
            assert(want.take(listed.len() as int) == want);
            Ok(adapters)
        },
        Enumeration::Windows(records) => {
            let listed = match windows::list_adapters(records) {
                Err(e) => { return Err(e); },
                Ok(listed) => listed,
            };
            let ghost want = adapters_of(*found)->Some_0;
            let mut adapters: Vec<Adapter> = Vec::new();
            let mut i: usize = 0;
            while i < listed.len()
                invariant
                    i <= listed.len(),
                    want.len() == listed.len(),
                    forall|j: int| 0 <= j < want.len() ==> want[j] == listed@[j].description@,
                    adapter_views(adapters@) == want.take(i as int),
                decreases listed.len() - i,
            {
                let ghost before = adapters@;
                let adapter = Adapter::from_windows(&listed[i]);
                adapters.push(adapter);
                assert(adapter_views(adapters@) == adapter_views(before).push(adapter@));
                assert(want.take(i + 1) == want.take(i as int).push(want[i as int]));
                i += 1;
            }
            assert(want.take(listed.len() as int) == want);
            Ok(adapters)
        },
        Enumeration::Unsupported => Err(MacchangerError::UnsupportedPlatform),
    }
}

/// Begins the change of the address of `interface` to `mac` on the
/// platform of the enumeration: what the platform's `change_mac` returns,
/// and `UnsupportedPlatform` where the host is neither platform.
pub fn do_change_mac(mac: MacAddress, interface: &String, found: &Enumeration) -> (r: Result<
    Change,
    MacchangerError,
>)
    ensures
        match *found {
            Enumeration::Linux(records) => match r {
                Ok(Change::Linux(m)) => mutator::change_begun(mac, interface@, records@, Ok(m)),
                Ok(_) => false,
                Err(e) => mutator::change_begun(mac, interface@, records@, Err(e)),
            },
            Enumeration::Windows(records) => match r {
                Ok(Change::Windows(m)) => windows::change_begun(mac, interface@, records@, Ok(m)),
                Ok(_) => false,
                Err(e) => windows::change_begun(mac, interface@, records@, Err(e)),
            },
            Enumeration::Unsupported => r == Err::<Change, MacchangerError>(
                MacchangerError::UnsupportedPlatform,
            ),
        },
{
    match found {
        Enumeration::Linux(records) => match mutator::change_mac(mac, interface, records) {
            Ok(m) => Ok(Change::Linux(m)),
            Err(e) => Err(e),
        },
        Enumeration::Windows(records) => match windows::change_mac(mac, interface, records) {
            Ok(m) => Ok(Change::Windows(m)),
            Err(e) => Err(e),
        },
        Enumeration::Unsupported => Err(MacchangerError::UnsupportedPlatform),
    }
}

/// The manufacturer-assigned address, from what the host answered to the
/// query for it: what the platform's `get_hardware_mac` returns, and
/// `UnsupportedPlatform` where the host is neither platform.
pub fn retrieve_hardware_mac(answer: &HardwareAnswer) -> (r: Result<MacAddress, MacchangerError>)
    ensures
        match *answer {
            HardwareAnswer::Linux(payload) => hardware::decoded(payload, r),
            HardwareAnswer::Windows(value) => windows::stored(value, r),
            HardwareAnswer::Unsupported => r == Err::<MacAddress, MacchangerError>(
                MacchangerError::UnsupportedPlatform,
            ),
        },
{
    match answer {
        HardwareAnswer::Linux(payload) => hardware::get_hardware_mac(*payload),
        HardwareAnswer::Windows(value) => windows::get_hardware_mac(value),
        HardwareAnswer::Unsupported => Err(MacchangerError::UnsupportedPlatform),
    }
}

} // verus!
