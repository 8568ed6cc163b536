//! The fixed-size structures that carry a control request, and the
//! arithmetic on the interface flags.

use vstd::prelude::*;
use vstd::utf8::encode_utf8;
use crate::error::LinuxMacchangerError;
use crate::mac::MacAddress;

verus! {

/// The width of the interface-name field of a request.
pub const IF_NAMESIZE: usize = 16;

/// The interface flag that says the interface is up.
pub const IFF_UP: u16 = 0x1;

/// The hardware type of an Ethernet address.
pub const ARPHRD_ETHER: u16 = 1;

/// The size of the address field of a permanent-address query.
pub const MAX_ADDR_LEN: u32 = 32;

/// The command number of the permanent-address query.
pub const ETHTOOL_GPERMADDR: u32 = 0x20;

/// Why a name that is wider than the name field is refused.
pub const NAME_TOO_LONG: &'static str = "failed to write whole buffer";

/// A request that reads or writes the interface flags.
#[derive(Clone, Copy, Debug, PartialEq, Eq)]
pub struct IfreqFlags {
    pub name: [u8; 16],
    pub value: u16,
}

/// A request that writes the link-layer address: the name, the hardware
/// type and the fourteen octets of the socket address data.
#[derive(Clone, Copy, Debug, PartialEq, Eq)]
pub struct IfreqAddress {
    pub name: [u8; 16],
    pub family: u16,
    pub data: [u8; 14],
}

/// The payload of a permanent-address query: the command, the size of the
/// address and the address field.
#[derive(Clone, Copy, Debug, PartialEq, Eq)]
pub struct EthtoolRequest {
    pub cmd: u32,
    pub size: u32,
    pub data: [u8; 32],
}

/// A permanent-address query for one interface.
#[derive(Clone, Copy, Debug, PartialEq, Eq)]
pub struct IfreqEthtool {
    pub name: [u8; 16],
    pub value: EthtoolRequest,
}

/// `bytes` followed by zero octets up to `width`.
pub open spec fn padded(bytes: Seq<u8>, width: nat) -> Seq<u8>
    recommends
        bytes.len() <= width,
{
    Seq::new(width, |i: int| if i < bytes.len() { bytes[i] } else { 0u8 })
}

/// The octets of an interface name.
pub open spec fn name_octets(name: Seq<char>) -> Seq<u8> {
    encode_utf8(name)
}

/// The flags with the up flag set or cleared, all other flags unchanged.
pub open spec fn with_active(flags: u16, active: bool) -> u16 {
    if active {
        flags | IFF_UP
    } else {
        flags & !IFF_UP
    }
}

/// Whether the up flag is set.
pub open spec fn up(flags: u16) -> bool {
    flags & IFF_UP == 1
}

/// Sets or clears the up flag and leaves the other flags alone.
pub fn set_active(flags: u16, active: bool) -> (out: u16)
    ensures
        out == with_active(flags, active),
        up(out) == active,
        out & !IFF_UP == flags & !IFF_UP,
{
    assert(up(with_active(flags, active)) == active && with_active(flags, active) & !IFF_UP
        == flags & !IFF_UP) by {
        assert((flags | 1u16) & 1u16 == 1 && (flags & !1u16) & 1u16 != 1 && (flags | 1u16) & !1u16
            == flags & !1u16 && (flags & !1u16) & !1u16 == flags & !1u16) by (bit_vector);
    }
    if active {
        flags | IFF_UP
    } else {
        flags & !IFF_UP
    }
}

/// Whether the flags say that the interface is up.
pub fn is_up(flags: u16) -> (yes: bool)
    ensures
        yes == up(flags),
{
    flags & IFF_UP == 1
}

/// Lays a name out as the name field of a request: the octets of the name,
/// then zero octets. A name wider than the field is refused.
pub fn name_field(name: &str) -> (r: Result<[u8; 16], LinuxMacchangerError>)
    ensures
        r is Ok == (name_octets(name@).len() <= IF_NAMESIZE),
        r matches Ok(field) ==> field@ == padded(name_octets(name@), IF_NAMESIZE as nat),
        r matches Err(e) ==> e matches LinuxMacchangerError::CreateIfreqAddress(why) && why@
            == NAME_TOO_LONG@,
{
    let octets = name.as_bytes();
    if octets.len() > IF_NAMESIZE {
        return Err(LinuxMacchangerError::CreateIfreqAddress(NAME_TOO_LONG.to_owned()));
    }
    let mut field = [0u8; 16];
    let mut i: usize = 0;
    while i < octets.len()
        invariant
            i <= octets.len() <= 16,
            forall|j: int| 0 <= j < i ==> field@[j] == octets@[j],
            forall|j: int| i <= j < 16 ==> field@[j] == 0,
        decreases octets.len() - i,
    {
        field[i] = octets[i];
        i += 1;
    }
    assert(field@ =~= padded(name_octets(name@), IF_NAMESIZE as nat));
    Ok(field)
}

/// The address field of an address request: the octets of the address,
/// then zero octets.
pub fn address_field(mac: &MacAddress) -> (data: [u8; 14])
    ensures
        data@ == padded(mac@, 14),
{
    let octets = mac.octets();
    let mut data = [0u8; 14];
    let mut i: usize = 0;
    while i < octets.len()
        invariant
            i <= octets.len() <= 8,
            forall|j: int| 0 <= j < i ==> data@[j] == octets@[j],
            forall|j: int| i <= j < 14 ==> data@[j] == 0,
        decreases octets.len() - i,
    {
        data[i] = octets[i];
        i += 1;
    }
    assert(data@ =~= padded(mac@, 14));
    data
}

impl IfreqFlags {
    /// The flags request for the interface `name`, with no flag set.
    pub fn from(name: &str) -> (r: Result<IfreqFlags, LinuxMacchangerError>)
        ensures
            r is Ok == (name_octets(name@).len() <= IF_NAMESIZE),
            r matches Ok(req) ==> req.value == 0 && req.name@ == padded(
                name_octets(name@),
                IF_NAMESIZE as nat,
            ),
            r matches Err(e) ==> e matches LinuxMacchangerError::CreateIfreqAddress(why) && why@
                == NAME_TOO_LONG@,
    {
        match name_field(name) {
            Ok(field) => Ok(IfreqFlags { name: field, value: 0 }),
            Err(e) => Err(e),
        }
    }
}

impl IfreqAddress {
    /// The address request for the interface `name`: an Ethernet address
    /// whose octets are still zero.
    pub fn from(name: &str) -> (r: Result<IfreqAddress, LinuxMacchangerError>)
        ensures
            r is Ok == (name_octets(name@).len() <= IF_NAMESIZE),
            r matches Ok(req) ==> req.family == ARPHRD_ETHER && req.data@ == padded(
                Seq::<u8>::empty(),
                14,
            ) && req.name@ == padded(name_octets(name@), IF_NAMESIZE as nat),
            r matches Err(e) ==> e matches LinuxMacchangerError::CreateIfreqAddress(why) && why@
                == NAME_TOO_LONG@,
    {
        match name_field(name) {
            Ok(field) => {
                let data = [0u8; 14];
                assert(data@ =~= padded(Seq::<u8>::empty(), 14));
                Ok(IfreqAddress { name: field, family: ARPHRD_ETHER, data })
            },
            Err(e) => Err(e),
        }
    }

    /// The same request carrying `mac` as the address to set.
    pub fn with_address(self, mac: &MacAddress) -> (req: IfreqAddress)
        ensures
            req.name == self.name,
            req.family == self.family,
            req.data@ == padded(mac@, 14),
    {
        IfreqAddress { name: self.name, family: self.family, data: address_field(mac) }
    }
}

} // verus!
