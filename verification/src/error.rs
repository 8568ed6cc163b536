//! The failures that the library reports, and the stage of a change at
//! which one occurred.

use vstd::prelude::*;

verus! {

/// The stage of an address change at which a failure occurred.
#[derive(Clone, Copy, Debug, PartialEq, Eq, Structural)]
pub enum Stage {
    /// Taking the interface down.
    Deactivate,
    /// Handing the new address to the driver.
    Reassign,
    /// Bringing the interface up again.
    Reactivate,
    /// Storing the new address in the adapter's configuration.
    RegistryWrite,
    /// Toggling the adapter's connection.
    Reconnect,
}

/// Failures of the control-request platform. Where the operating system
/// rejected a request, the variant holds its error number.
#[derive(Clone, Debug, PartialEq, Eq)]
pub enum LinuxMacchangerError {
    /// An interface record carried no socket address.
    SocketaddrStorage,
    /// A socket address was no link-layer address.
    LinkAddress,
    /// A hardware lookup failed: the payload of the permanent-address
    /// query has a length that is no address encoding.
    MacAddressBytes,
    /// A hardware lookup failed: the vendor and device numbers of a
    /// physical adapter could not be read, or the database does not know
    /// them; the text says which.
    AdapterNameLookup(String),
    /// No control socket could be opened.
    GetSocket(i32),
    /// An interface name does not fit the request's name field.
    CreateIfreqAddress(String),
    /// The driver rejected the new address.
    SetMacAddress(i32),
    /// The interface flags could not be read.
    GetIfrFlags(i32),
    /// The interface flags could not be written.
    SetIfrFlags(i32),
    /// The error number with which the driver rejected the query for the
    /// permanent address. The query itself reports the rejection as the
    /// not-found failure, `MacchangerError::Generic`; this variant is for
    /// a caller that passes the number on.
    GetPermanentMac(i32),
}

/// Failures of the library as a whole.
#[derive(Clone, Debug, PartialEq, Eq)]
pub enum MacchangerError {
    /// Not found: no listed interface bears the requested name, or the
    /// hardware address of an interface is not to be had from its source.
    Generic,
    /// The host is neither of the supported platforms.
    UnsupportedPlatform,
    /// The configuration store rejected a request; the text says which.
    RegistryError(String),
    /// A malformed address: a stored value that is no address.
    StringConversionError,
    /// The adapter could not be disabled or enabled.
    ConnectionResetError,
    /// An allocation failure: the buffer for the adapter list could not
    /// be sized or allocated.
    AllocError,
    /// An enumeration failure: the adapter list could not be obtained or
    /// read.
    AdapterError,
    /// An enumeration failure: the interface list could not be obtained.
    ListInterfacesError,
    /// A failure of the control-request platform.
    LinuxError(LinuxMacchangerError),
}

/// A failed address change: the stage that failed and why. Nothing is
/// rolled back, so the stage tells the caller what state the interface
/// was left in.
#[derive(Clone, Debug, PartialEq, Eq)]
pub struct MutationError {
    pub stage: Stage,
    pub cause: MacchangerError,
}

/// A platform failure as callers of the platform-neutral functions see
/// it: wrapped in `LinuxError`.
impl From<LinuxMacchangerError> for MacchangerError {
    fn from(val: LinuxMacchangerError) -> (e: MacchangerError) {
        MacchangerError::LinuxError(val)
    }
}

impl vstd::std_specs::convert::FromSpecImpl<LinuxMacchangerError> for MacchangerError {
    open spec fn obeys_from_spec() -> bool {
        true
    }

    open spec fn from_spec(val: LinuxMacchangerError) -> MacchangerError {
        MacchangerError::LinuxError(val)
    }
}

} // verus!
