//! The platform that is driven through control requests on a socket:
//! resolving the enumerated interface records into interfaces and adapters.

use vstd::prelude::*;
use vstd::utf8::encode_utf8;
use crate::error::{LinuxMacchangerError, MacchangerError};
use crate::mac::{all_zero, zero_octets, MacAddress};
use crate::vendor::{
    adapter_name, id_syntax, parse_hardware_id, pci_device_name, HardwareIdentity, IdSyntax,
};

pub use crate::hardware::{get_hardware_mac, hardware_mac_query};
pub use crate::mutator::{change_interface_active, change_mac};

verus! {

/// Why a physical adapter is reported when the database does not list it.
pub const UNKNOWN_DEVICE: &'static str =
    "Could not find network adapter by vendor id and device id";

/// Why an identifier without the `0x` prefix is refused.
pub const NO_PREFIX: &'static str = "hardware id does not start with 0x";

/// Why an identifier without digits is refused.
pub const NO_DIGITS: &'static str = "cannot parse integer from empty string";

/// Why an identifier with a character that is no digit is refused.
pub const BAD_DIGIT: &'static str = "invalid digit found in string";

/// Why an identifier above `0xffff` is refused.
pub const TOO_LARGE: &'static str = "number too large to fit in target type";

/// One of the two short texts that describe the bus identity of an
/// interface, as the enumerator found it.
#[derive(Clone, Debug, PartialEq, Eq)]
pub enum IdentityFile {
    /// The file does not exist: the interface has no bus device behind it.
    Missing,
    /// The file exists and could not be read; the text says why.
    Unreadable(String),
    /// What the file holds.
    Contents(String),
}

/// What the enumerator reports of one interface.
#[derive(Clone, Debug, PartialEq, Eq)]
pub struct RawAdapterRecord {
    /// The operational name of the interface.
    pub name: String,
    /// The current link-layer address; absent for pseudo-interfaces.
    pub address: Option<[u8; 6]>,
    /// The text that holds the vendor number.
    pub vendor: IdentityFile,
    /// The text that holds the device number.
    pub device: IdentityFile,
}

/// The device behind an interface: its descriptive name and its address.
#[derive(Clone, Debug, PartialEq, Eq)]
pub struct LinuxAdapter {
    pub name: String,
    pub mac: MacAddress,
}

/// A resolved interface.
#[derive(Clone, Debug, PartialEq, Eq)]
pub struct LinuxInterface {
    pub name: String,
    pub adapter: LinuxAdapter,
}

/// A resolved interface, or none where the record names nothing to list.
#[derive(Clone, Debug, PartialEq, Eq)]
pub struct OptionalLinuxInterface(pub Option<LinuxInterface>);

/// A `LinuxAdapter` as a mathematical value.
pub struct AdapterView {
    pub name: Seq<char>,
    pub mac: Seq<u8>,
}

/// A `LinuxInterface` as a mathematical value.
pub struct InterfaceView {
    pub name: Seq<char>,
    pub adapter: AdapterView,
}

impl View for LinuxAdapter {
    type V = AdapterView;

    open spec fn view(&self) -> AdapterView {
        AdapterView { name: self.name@, mac: self.mac@ }
    }
}

impl View for LinuxInterface {
    type V = InterfaceView;

    open spec fn view(&self) -> InterfaceView {
        InterfaceView { name: self.name@, adapter: self.adapter@ }
    }
}

/// The hardware identity that the two texts of a record establish.
pub enum Identity {
    /// One of the texts is missing: a virtual adapter.
    Virtual,
    /// Both texts hold a well-formed number.
    Physical(HardwareIdentity),
    /// A text could not be read or holds no number; the reason.
    Unusable(Seq<char>),
}

/// What resolving one record yields.
pub enum Resolution {
    /// The record names nothing to list.
    Skipped,
    /// The record names a physical interface.
    Listed(InterfaceView),
    /// The record names a physical adapter whose identity cannot be
    /// resolved; the reason.
    Failed(Seq<char>),
}

/// The reason given for a malformed identifier.
pub open spec fn syntax_reason(syntax: IdSyntax) -> Seq<char> {
    match syntax {
        IdSyntax::NoPrefix => NO_PREFIX@,
        IdSyntax::Empty => NO_DIGITS@,
        IdSyntax::InvalidDigit => BAD_DIGIT@,
        _ => TOO_LARGE@,
    }
}

/// The vendor text is read first, then the device text; whatever is wrong
/// first is the reason.
pub open spec fn identity_of(vendor: IdentityFile, device: IdentityFile) -> Identity {
    match (vendor, device) {
        (IdentityFile::Missing, _) => Identity::Virtual,
        (_, IdentityFile::Missing) => Identity::Virtual,
        (IdentityFile::Unreadable(why), _) => Identity::Unusable(why@),
        (IdentityFile::Contents(vendor_text), _) => match id_syntax(encode_utf8(vendor_text@)) {
            IdSyntax::Value(vendor_id) => match device {
                IdentityFile::Contents(device_text) => match id_syntax(
                    encode_utf8(device_text@),
                ) {
                    IdSyntax::Value(device_id) => Identity::Physical(
                        HardwareIdentity { vendor_id, device_id },
                    ),
                    other => Identity::Unusable(syntax_reason(other)),
                },
                IdentityFile::Unreadable(why) => Identity::Unusable(why@),
                IdentityFile::Missing => Identity::Virtual,
            },
            other => Identity::Unusable(syntax_reason(other)),
        },
    }
}

/// Whether a record carries a link-layer address that was ever set.
pub open spec fn addressed(record: RawAdapterRecord) -> bool {
    match record.address {
        None => false,
        Some(octets) => !all_zero(octets@),
    }
}

/// Resolving one record: a record without an address, with an all-zero
/// address or without a hardware identity is skipped; a physical one is
/// listed under the name that the database gives its device, and fails
/// where its identity cannot be read or the database does not know it.
pub open spec fn resolution(record: RawAdapterRecord) -> Resolution {
    if !addressed(record) {
        Resolution::Skipped
    } else {
        match identity_of(record.vendor, record.device) {
            Identity::Virtual => Resolution::Skipped,
            Identity::Unusable(why) => Resolution::Failed(why),
            Identity::Physical(id) => match pci_device_name(id.vendor_id, id.device_id) {
                Some(name) => Resolution::Listed(
                    InterfaceView {
                        name: record.name@,
                        adapter: AdapterView { name, mac: record.address->Some_0@ },
                    },
                ),
                None => Resolution::Failed(UNKNOWN_DEVICE@),
            },
        }
    }
}

/// The interfaces that a scan of `records` lists, in the order of the
/// records.
pub open spec fn listed(records: Seq<RawAdapterRecord>) -> Seq<InterfaceView>
    decreases records.len(),
{
    if records.len() == 0 {
        Seq::empty()
    } else {
        let before = listed(records.drop_last());
        match resolution(records.last()) {
            Resolution::Listed(entry) => before.push(entry),
            _ => before,
        }
    }
}

/// Whether the record at `at` is the first whose resolution fails.
pub open spec fn first_failure(records: Seq<RawAdapterRecord>, at: int) -> bool {
    &&& 0 <= at < records.len()
    &&& resolution(records[at]) is Failed
    &&& forall|j: int| 0 <= j < at ==> !(#[trigger] resolution(records[j]) is Failed)
}

/// Whether the resolution of some record fails.
pub open spec fn some_failure(records: Seq<RawAdapterRecord>) -> bool {
    exists|at: int| 0 <= at < records.len() && #[trigger] resolution(records[at]) is Failed
}

/// The views of a list of interfaces.
pub open spec fn interface_views(interfaces: Seq<LinuxInterface>) -> Seq<InterfaceView> {
    interfaces.map_values(|i: LinuxInterface| i@)
}

/// The views of a list of adapters.
pub open spec fn adapter_views(adapters: Seq<LinuxAdapter>) -> Seq<AdapterView> {
    adapters.map_values(|a: LinuxAdapter| a@)
}

/// The adapters behind a list of interfaces.
pub open spec fn adapters_of(interfaces: Seq<InterfaceView>) -> Seq<AdapterView> {
    interfaces.map_values(|i: InterfaceView| i.adapter)
}

fn reason_text(syntax: IdSyntax) -> (why: String)
    ensures
        why@ == syntax_reason(syntax),
{
    match syntax {
        IdSyntax::NoPrefix => NO_PREFIX.to_owned(),
        IdSyntax::Empty => NO_DIGITS.to_owned(),
        IdSyntax::InvalidDigit => BAD_DIGIT.to_owned(),
        _ => TOO_LARGE.to_owned(),
    }
}

/// Reads the hardware identity off the two texts of a record: `Ok(None)`
/// for a virtual adapter, the reason as an error where a text is
/// unreadable or malformed.
pub fn hardware_identity(vendor: &IdentityFile, device: &IdentityFile) -> (r: Result<
    Option<HardwareIdentity>,
    LinuxMacchangerError,
>)
    ensures
        match identity_of(*vendor, *device) {
            Identity::Virtual => r == Ok::<Option<HardwareIdentity>, LinuxMacchangerError>(None),
            Identity::Physical(id) => r == Ok::<Option<HardwareIdentity>, LinuxMacchangerError>(
                Some(id),
            ),
            Identity::Unusable(why) => r matches Err(LinuxMacchangerError::AdapterNameLookup(text))
                && text@ == why,
        },
{
    let vendor_text = match vendor {
        IdentityFile::Missing => { return Ok(None); },
        IdentityFile::Unreadable(why) => {
            if let IdentityFile::Missing = device {
                return Ok(None);
            }
            return Err(LinuxMacchangerError::AdapterNameLookup(why.clone()));
        },
        IdentityFile::Contents(text) => text,
    };
    if let IdentityFile::Missing = device {
        return Ok(None);
    }
    let vendor_id = match parse_hardware_id(vendor_text.as_str().as_bytes()) {
        IdSyntax::Value(id) => id,
        other => { return Err(LinuxMacchangerError::AdapterNameLookup(reason_text(other))); },
    };
    let device_text = match device {
        IdentityFile::Contents(text) => text,
        IdentityFile::Unreadable(why) => {
            return Err(LinuxMacchangerError::AdapterNameLookup(why.clone()));
        },
        IdentityFile::Missing => { return Ok(None); },
    };
    match parse_hardware_id(device_text.as_str().as_bytes()) {
        IdSyntax::Value(device_id) => Ok(Some(HardwareIdentity { vendor_id, device_id })),
        other => Err(LinuxMacchangerError::AdapterNameLookup(reason_text(other))),
    }
}

impl OptionalLinuxInterface {
    /// Resolves one enumerated record. A record that is merely not
    /// applicable gives `None`; only a physical adapter whose identity
    /// cannot be resolved gives an error, which says why.
    pub fn try_from(record: &RawAdapterRecord) -> (r: Result<Self, LinuxMacchangerError>)
        ensures
            match resolution(*record) {
                Resolution::Skipped => r matches Ok(found) && found.0 is None,
                Resolution::Listed(entry) => r matches Ok(found) && found.0 matches Some(interface)
                    && interface@ == entry,
                Resolution::Failed(why) => r matches Err(
                    LinuxMacchangerError::AdapterNameLookup(text),
                ) && text@ == why,
            },
    {
        let octets = match record.address {
            None => { return Ok(OptionalLinuxInterface(None)); },
            Some(octets) => octets,
        };
        if zero_octets(octets.as_slice()) {
            return Ok(OptionalLinuxInterface(None));
        }
        let identity = match hardware_identity(&record.vendor, &record.device) {
            Err(e) => { return Err(e); },
            Ok(None) => { return Ok(OptionalLinuxInterface(None)); },
            Ok(Some(identity)) => identity,
        };
        match adapter_name(Some(identity)) {
            None => Err(LinuxMacchangerError::AdapterNameLookup(UNKNOWN_DEVICE.to_owned())),
            Some(name) => Ok(
                OptionalLinuxInterface(
                    Some(
                        LinuxInterface {
                            name: record.name.clone(),
                            adapter: LinuxAdapter { name, mac: MacAddress::V6(octets) },
                        },
                    ),
                ),
            ),
        }
    }
}

/// Takes what the system's interface-list call gave: the records that
/// were read off the list, or the error number with which the call
/// failed. A failed call is an enumeration failure, whatever the number.
pub fn enumerated(answer: Result<Vec<RawAdapterRecord>, i32>) -> (r: Result<
    Vec<RawAdapterRecord>,
    MacchangerError,
>)
    ensures
        match answer {
            Ok(records) => r == Ok::<Vec<RawAdapterRecord>, MacchangerError>(records),
            Err(_) => r == Err::<Vec<RawAdapterRecord>, MacchangerError>(
                MacchangerError::ListInterfacesError,
            ),
        },
{
    match answer {
        Ok(records) => Ok(records),
        Err(_) => Err(MacchangerError::ListInterfacesError),
    }
}

/// Resolves the enumerated records into the list of interfaces. The scan
/// stops at the first record whose resolution fails and reports that
/// failure alone; records that are not applicable are passed over.
pub fn list_interfaces(records: &Vec<RawAdapterRecord>) -> (r: Result<
    Vec<LinuxInterface>,
    MacchangerError,
>)
    ensures
        r is Err == some_failure(records@),
        r matches Ok(interfaces) ==> interface_views(interfaces@) == listed(records@),
        r matches Err(e) ==> e matches MacchangerError::LinuxError(
            LinuxMacchangerError::AdapterNameLookup(text),
        ) && exists|at: int|
            first_failure(records@, at) && resolution(records@[at]) == Resolution::Failed(text@),
{
    let mut interfaces: Vec<LinuxInterface> = Vec::new();
    let mut i: usize = 0;
    while i < records.len()
        invariant
            i <= records.len(),
            interface_views(interfaces@) == listed(records@.take(i as int)),
            forall|j: int| 0 <= j < i ==> !(#[trigger] resolution(records@[j]) is Failed),
        decreases records.len() - i,
    {
        let ghost next = records@.take(i + 1);
        assert(next.drop_last() == records@.take(i as int));
        assert(next.last() == records@[i as int]);
        match OptionalLinuxInterface::try_from(&records[i]) {
            Err(e) => {
                assert(first_failure(records@, i as int));
                return Err(MacchangerError::LinuxError(e));
            },
            Ok(found) => {
                if let Some(interface) = found.0 {
                    let ghost before = interfaces@;
                    interfaces.push(interface);
                    assert(interface_views(interfaces@) == interface_views(before).push(
                        interface@,
                    ));
                }
            },
        }
        i += 1;
    }
    assert(records@.take(records.len() as int) == records@);
    Ok(interfaces)
}

/// Resolves the enumerated records into the list of adapters: the devices
/// behind the interfaces that `list_interfaces` gives, in the same order,
/// and the same failure where it fails.
pub fn list_adapters(records: &Vec<RawAdapterRecord>) -> (r: Result<
    Vec<LinuxAdapter>,
    MacchangerError,
>)
    ensures
        r is Err == some_failure(records@),
        r matches Ok(adapters) ==> adapter_views(adapters@) == adapters_of(listed(records@)),
        r matches Err(e) ==> e matches MacchangerError::LinuxError(
            LinuxMacchangerError::AdapterNameLookup(text),
        ) && exists|at: int|
            first_failure(records@, at) && resolution(records@[at]) == Resolution::Failed(text@),
{
    let interfaces = match list_interfaces(records) {
        Err(e) => { return Err(e); },
        Ok(interfaces) => interfaces,
    };
    let mut adapters: Vec<LinuxAdapter> = Vec::new();
    let mut i: usize = 0;
    while i < interfaces.len()
        invariant
            i <= interfaces.len(),
            adapter_views(adapters@) == adapters_of(interface_views(interfaces@)).take(i as int),
        decreases interfaces.len() - i,
    {
        let ghost before = adapters@;
        let adapter = LinuxAdapter {
            name: interfaces[i].adapter.name.clone(),
            mac: interfaces[i].adapter.mac,
        };
        adapters.push(adapter);
        assert(adapter_views(adapters@) == adapter_views(before).push(adapter@));
        assert(adapters_of(interface_views(interfaces@)).take(i + 1) == adapters_of(
            interface_views(interfaces@),
        ).take(i as int).push(adapter@));
        i += 1;
    }
    assert(adapters_of(interface_views(interfaces@)).take(interfaces.len() as int)
        == adapters_of(interface_views(interfaces@)));
    Ok(adapters)
}

/// Every interface that a scan lists carries an address that is not all
/// zero.
pub proof fn listed_interfaces_are_addressed(records: Seq<RawAdapterRecord>)
    ensures
        forall|k: int|
            0 <= k < listed(records).len() ==> !all_zero(
                (#[trigger] listed(records)[k]).adapter.mac,
            ),
    decreases records.len(),
{
    if records.len() > 0 {
        listed_interfaces_are_addressed(records.drop_last());
        let before = listed(records.drop_last());
        assert forall|k: int| 0 <= k < listed(records).len() implies !all_zero(
            (#[trigger] listed(records)[k]).adapter.mac,
        ) by {
            if k < before.len() {
                assert(listed(records)[k] == before[k]);
            } else {
                assert(addressed(records.last()));
            }
        }
    }
}

/// A record without a link-layer address, or with an all-zero one, is
/// skipped: the interface listing and the adapter listing are what they
/// would be if the enumerator had not reported the record at all.
pub proof fn unaddressed_record_is_excluded(records: Seq<RawAdapterRecord>, at: int)
    requires
        0 <= at < records.len(),
        !addressed(records[at]),
    ensures
        resolution(records[at]) is Skipped,
        listed(records) == listed(records.remove(at)),
        adapters_of(listed(records)) == adapters_of(listed(records.remove(at))),
    decreases records.len(),
{
    if at == records.len() - 1 {
        assert(records.remove(at) == records.drop_last());
    } else {
        unaddressed_record_is_excluded(records.drop_last(), at);
        assert(records.remove(at).drop_last() == records.drop_last().remove(at));
        assert(records.remove(at).last() == records.last());
    }
}

/// Whether a record names a physical adapter whose vendor and device
/// numbers cannot be resolved: both texts exist, and one of them cannot be
/// read, holds no number, or the database does not know the pair.
pub open spec fn unresolvable(record: RawAdapterRecord) -> bool {
    match identity_of(record.vendor, record.device) {
        Identity::Virtual => false,
        Identity::Unusable(_) => true,
        Identity::Physical(id) => pci_device_name(id.vendor_id, id.device_id) is None,
    }
}

/// The resolution of an addressed physical adapter with unresolvable
/// vendor and device numbers fails, and a scan that holds such a record
/// fails as a whole: `list_interfaces` and `list_adapters` return an error
/// exactly when `some_failure` holds, so no partial list is returned.
pub proof fn unresolvable_identity_fails_the_scan(records: Seq<RawAdapterRecord>, at: int)
    requires
        0 <= at < records.len(),
        addressed(records[at]),
        unresolvable(records[at]),
    ensures
        resolution(records[at]) is Failed,
        some_failure(records),
{
}

} // verus!
