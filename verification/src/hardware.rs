//! The manufacturer-assigned address of an interface, as the driver
//! reports it whatever address is configured at the moment.

use vstd::prelude::*;
use crate::error::{LinuxMacchangerError, MacchangerError};
use crate::linux::{list_interfaces, RawAdapterRecord};
use crate::mac::MacAddress;
use crate::mutator::{
    begun, exchanges, find_interface, reachable, refusal, successful_change_leaves_interface_up,
    Link, Move, Mutator, Outcome, Phase, Reply,
};
use crate::request::{
    name_field, name_octets, padded, EthtoolRequest, IfreqEthtool, ETHTOOL_GPERMADDR,
    IF_NAMESIZE, MAX_ADDR_LEN,
};

verus! {

/// The address that a query's answer encodes: six octets or eight,
/// according to the size that the driver filled in; nothing for any other
/// size.
pub open spec fn permanent_address(answer: EthtoolRequest) -> Option<Seq<u8>> {
    if answer.size == 6 {
        Some(answer.data@.take(6))
    } else if answer.size == 8 {
        Some(answer.data@.take(8))
    } else {
        None
    }
}

/// What `get_hardware_mac` returns for an answer: `Generic`, the
/// not-found failure, where the driver rejected the query and so has no
/// permanent address to give; the address that the payload encodes; or
/// `MacAddressBytes` where it encodes none.
pub open spec fn decoded(
    answer: Result<EthtoolRequest, i32>,
    r: Result<MacAddress, MacchangerError>,
) -> bool {
    match answer {
        Err(_) => r == Err::<MacAddress, MacchangerError>(MacchangerError::Generic),
        Ok(payload) => match permanent_address(payload) {
            Some(octets) => r matches Ok(mac) && mac@ == octets && (mac is V6) == (payload.size
                == 6),
            None => r == Err::<MacAddress, MacchangerError>(
                MacchangerError::LinuxError(LinuxMacchangerError::MacAddressBytes),
            ),
        },
    }
}

/// Prepares the permanent-address query for `interface`, given what the
/// enumerator reported: the command, room for the largest address, and an
/// address field of zeros.
///
/// The query is refused where the scan of the records fails (with the
/// failure of the scan), where no listed interface bears the name
/// (`Generic`), and where the name does not fit the name field.
pub fn hardware_mac_query(interface: &String, records: &Vec<RawAdapterRecord>) -> (r: Result<
    IfreqEthtool,
    MacchangerError,
>)
    ensures
        match r {
            Ok(query) => reachable(interface@, records@) && query.name@ == padded(
                name_octets(interface@),
                IF_NAMESIZE as nat,
            ) && query.value.cmd == ETHTOOL_GPERMADDR && query.value.size == MAX_ADDR_LEN
                && query.value.data@ == padded(Seq::<u8>::empty(), 32),
            Err(e) => !reachable(interface@, records@) && refusal(interface@, records@, e),
        },
{
    let interfaces = match list_interfaces(records) {
        Err(e) => { return Err(e); },
        Ok(interfaces) => interfaces,
    };
    if find_interface(&interfaces, interface).is_none() {
        return Err(MacchangerError::Generic);
    }
    let name = match name_field(interface.as_str()) {
        Err(e) => { return Err(MacchangerError::LinuxError(e)); },
        Ok(name) => name,
    };
    let data = [0u8; 32];
    assert(data@ =~= padded(Seq::<u8>::empty(), 32));
    Ok(IfreqEthtool { name, value: EthtoolRequest { cmd: ETHTOOL_GPERMADDR, size: MAX_ADDR_LEN, data } })
}

/// Reads the manufacturer-assigned address off the answer to the query.
/// A rejected query means that the address is not to be had, whatever the
/// error number: the failure is `Generic`, as for an unknown interface. A
/// payload whose size is neither six nor eight encodes no address.
pub fn get_hardware_mac(answer: Result<EthtoolRequest, i32>) -> (r: Result<
    MacAddress,
    MacchangerError,
>)
    ensures
        decoded(answer, r),
{
    let payload = match answer {
        Err(_) => {
            return Err(MacchangerError::Generic);
        },
        Ok(payload) => payload,
    };
    if payload.size == 6 {
        let mut octets = [0u8; 6];
        let mut i: usize = 0;
        while i < 6
            invariant
                i <= 6,
                forall|j: int| 0 <= j < i ==> octets@[j] == payload.data@[j],
            decreases 6 - i,
        {
            octets[i] = payload.data[i];
            i += 1;
        }
        assert(octets@ =~= payload.data@.take(6));
        Ok(MacAddress::V6(octets))
    } else if payload.size == 8 {
        let mut octets = [0u8; 8];
        let mut i: usize = 0;
        while i < 8
            invariant
                i <= 8,
                forall|j: int| 0 <= j < i ==> octets@[j] == payload.data@[j],
            decreases 8 - i,
        {
            octets[i] = payload.data[i];
            i += 1;
        }
        assert(octets@ =~= payload.data@.take(8));
        Ok(MacAddress::V8(octets))
    } else {
        Err(MacchangerError::LinuxError(LinuxMacchangerError::MacAddressBytes))
    }
}

/// Restoring the hardware address: where the driver reported a six-octet
/// address and a change to that address succeeds, the change reports the
/// same address and the interface carries, octet for octet, what the
/// query returned.
pub proof fn restore_round_trip(
    payload: EthtoolRequest,
    hardware: MacAddress,
    machine: Mutator,
    link: Link,
    replies: Seq<Reply>,
)
    requires
        payload.size == 6,
        decoded(Ok(payload), Ok(hardware)),
        machine.wf(),
        machine.phase == Phase::Control,
        machine.target == hardware,
        exchanges(begun(machine, link), replies).pending is Done,
        exchanges(begun(machine, link), replies).pending->Done_0 is Changed,
    ensures
        exchanges(begun(machine, link), replies).pending == Move::Done(
            Outcome::Changed(hardware),
        ),
        exchanges(begun(machine, link), replies).link.address == hardware@,
        exchanges(begun(machine, link), replies).link.address == payload.data@.take(6),
        exchanges(begun(machine, link), replies).link.up,
{
    successful_change_leaves_interface_up(machine, link, replies);
}

} // verus!
