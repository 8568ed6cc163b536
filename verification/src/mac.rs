//! Link-layer addresses: the six-octet canonical form, the eight-octet
//! EUI-64 form, and the generated locally administered address.

use vstd::prelude::*;

verus! {

/// The bit of the first octet that marks a software-assigned address.
pub const LOCAL_BIT: u8 = 0x02;

/// A link-layer address, either six octets or eight.
#[derive(Clone, Copy, Debug, PartialEq, Eq)]
pub enum MacAddress {
    V6([u8; 6]),
    V8([u8; 8]),
}

impl View for MacAddress {
    type V = Seq<u8>;

    open spec fn view(&self) -> Seq<u8> {
        match self {
            MacAddress::V6(octets) => octets@,
            MacAddress::V8(octets) => octets@,
        }
    }
}

/// Whether every octet of `octets` is zero.
pub open spec fn all_zero(octets: Seq<u8>) -> bool {
    forall|i: int| 0 <= i < octets.len() ==> octets[i] == 0
}

/// `octets` with the first octet replaced by the locally administered,
/// unicast marker.
pub open spec fn stamped(octets: Seq<u8>) -> Seq<u8>
    recommends
        octets.len() > 0,
{
    octets.update(0, LOCAL_BIT)
}

impl MacAddress {
    /// The octets, in transmission order.
    pub fn octets(&self) -> (out: Vec<u8>)
        ensures
            out@ == self@,
    {
        let mut out: Vec<u8> = Vec::new();
        match self {
            MacAddress::V6(octets) => {
                let mut i: usize = 0;
                while i < 6
                    invariant
                        i <= 6,
                        out@ == octets@.take(i as int),
                    decreases 6 - i,
                {
                    out.push(octets[i]);
                    i += 1;
                }
                assert(octets@.take(6) == octets@);
            },
            MacAddress::V8(octets) => {
                let mut i: usize = 0;
                while i < 8
                    invariant
                        i <= 8,
                        out@ == octets@.take(i as int),
                    decreases 8 - i,
                {
                    out.push(octets[i]);
                    i += 1;
                }
                assert(octets@.take(8) == octets@);
            },
        }
        out
    }

    /// Whether the address has the six-octet form.
    pub fn is_v6(&self) -> (yes: bool)
        ensures
            yes == (*self is V6),
            yes == (self@.len() == 6),
    {
        match self {
            MacAddress::V6(_) => true,
            MacAddress::V8(_) => false,
        }
    }

    /// Whether the locally administered bit of the first octet is set.
    pub fn is_local(&self) -> (yes: bool)
        ensures
            yes == (self@[0] & LOCAL_BIT != 0),
    {
        match self {
            MacAddress::V6(octets) => octets[0] & LOCAL_BIT != 0,
            MacAddress::V8(octets) => octets[0] & LOCAL_BIT != 0,
        }
    }

    /// Whether every octet is zero, as in an address that was never set.
    pub fn is_nil(&self) -> (yes: bool)
        ensures
            yes == all_zero(self@),
    {
        match self {
            MacAddress::V6(octets) => zero_octets(octets.as_slice()),
            MacAddress::V8(octets) => zero_octets(octets.as_slice()),
        }
    }
}

/// Whether every octet of the slice is zero.
pub fn zero_octets(octets: &[u8]) -> (yes: bool)
    ensures
        yes == all_zero(octets@),
{
    let mut i: usize = 0;
    while i < octets.len()
        invariant
            i <= octets.len(),
            forall|j: int| 0 <= j < i ==> octets@[j] == 0,
        decreases octets.len() - i,
    {
        if octets[i] != 0 {
            return false;
        }
        i += 1;
    }
    true
}

/// Six bytes from the thread-local generator of `rand` (`thread_rng`, then
/// `Rng::fill`). They depend on chance, so nothing is claimed of them.
#[verifier::external_body]
fn random_octets() -> (octets: [u8; 6]) {
    let mut octets = [0u8; 6];
    rand::Rng::fill(&mut rand::thread_rng(), &mut octets);
    octets
}

/// Turns six arbitrary octets into a generated address: the first octet
/// becomes `0x02` (locally administered, unicast), the other five stay.
pub fn locally_administered(octets: [u8; 6]) -> (mac: MacAddress)
    ensures
        mac == MacAddress::V6(mac->V6_0),
        mac@ == stamped(octets@),
        mac@[0] & LOCAL_BIT != 0,
        mac@[0] & 0x01 == 0,
{
    let mut stamped_octets = octets;
    stamped_octets[0] = LOCAL_BIT;
    assert(0x02u8 & 0x02u8 != 0 && 0x02u8 & 0x01u8 == 0) by (bit_vector);
    assert(stamped_octets@ =~= stamped(octets@));
    MacAddress::V6(stamped_octets)
}

/// A random six-octet address that is locally administered and unicast.
///
/// Whatever the generator yields, the locally administered bit of the
/// first octet is set.
pub fn generate_random_mac() -> (mac: MacAddress)
    ensures
        mac is V6,
        mac@.len() == 6,
        mac@[0] == LOCAL_BIT,
        mac@[0] & 0x02 != 0,
{
    let octets = random_octets();
    let mac = locally_administered(octets);
    assert(0x02u8 & 0x02u8 != 0) by (bit_vector);
    mac
}

/// The upper-case hexadecimal digit of a value below sixteen.
pub open spec fn hex_digit(n: int) -> char {
    if n == 0 {
        '0'
    } else if n == 1 {
        '1'
    } else if n == 2 {
        '2'
    } else if n == 3 {
        '3'
    } else if n == 4 {
        '4'
    } else if n == 5 {
        '5'
    } else if n == 6 {
        '6'
    } else if n == 7 {
        '7'
    } else if n == 8 {
        '8'
    } else if n == 9 {
        '9'
    } else if n == 10 {
        'A'
    } else if n == 11 {
        'B'
    } else if n == 12 {
        'C'
    } else if n == 13 {
        'D'
    } else if n == 14 {
        'E'
    } else {
        'F'
    }
}

/// The octets as hexadecimal digits, two for each octet, with nothing in
/// between.
pub open spec fn hex_run(octets: Seq<u8>) -> Seq<char>
    decreases octets.len(),
{
    if octets.len() == 0 {
        Seq::empty()
    } else {
        seq![hex_digit(octets[0] as int / 16), hex_digit(octets[0] as int % 16)] + hex_run(
            octets.skip(1),
        )
    }
}

/// The octets as they are printed: two hexadecimal digits for each octet,
/// and a colon between one octet and the next.
pub open spec fn canonical_text(octets: Seq<u8>) -> Seq<char>
    decreases octets.len(),
{
    if octets.len() == 0 {
        Seq::empty()
    } else if octets.len() == 1 {
        seq![hex_digit(octets[0] as int / 16), hex_digit(octets[0] as int % 16)]
    } else {
        seq![hex_digit(octets[0] as int / 16), hex_digit(octets[0] as int % 16), ':']
            + canonical_text(octets.skip(1))
    }
}

/// The text without its colons.
pub open spec fn without_colons(text: Seq<char>) -> Seq<char>
    decreases text.len(),
{
    if text.len() == 0 {
        Seq::empty()
    } else if text[0] == ':' {
        without_colons(text.skip(1))
    } else {
        seq![text[0]] + without_colons(text.skip(1))
    }
}

/// What parsing a text as an address yields: the octets of a six-octet or
/// an eight-octet address, or nothing where the text is no address.
pub uninterp spec fn parsed_address(text: Seq<char>) -> Option<Seq<u8>>;

/// The printed form of six octets, by the `Display` of `macaddr::MacAddr6`
/// (through `to_string`): its source writes each octet with `{:02X}` and
/// puts a colon between two octets.
#[verifier::external_body]
fn printed_six(octets: &[u8; 6]) -> (text: String)
    ensures
        text@ == canonical_text(octets@),
{
    macaddr::MacAddr6::from(*octets).to_string()
}

/// The printed form of eight octets, by the `Display` of
/// `macaddr::MacAddr8` (through `to_string`), which writes them as
/// `MacAddr6` writes six.
#[verifier::external_body]
fn printed_eight(octets: &[u8; 8]) -> (text: String)
    ensures
        text@ == canonical_text(octets@),
{
    macaddr::MacAddr8::from(*octets).to_string()
}

/// `str::replace` with a colon as the pattern and the empty text as the
/// replacement: every colon goes, every other character stays in place.
#[verifier::external_body]
fn colons_removed(text: &str) -> (out: String)
    ensures
        out@ == without_colons(text@),
{
    text.replace(":", "")
}

/// Parses a text by the `FromStr` of `macaddr::MacAddr`. Its grammar (six
/// or eight groups of two hexadecimal digits, with an optional delimiter
/// before each group) is left to that crate: the contract names the result
/// and says only that an address that comes back holds the octets named.
#[verifier::external_body]
fn parsed(text: &str) -> (mac: Option<MacAddress>)
    ensures
        mac is Some == parsed_address(text@) is Some,
        mac matches Some(found) ==> parsed_address(text@) == Some(found@),
{
    match <macaddr::MacAddr as core::str::FromStr>::from_str(text) {
        Ok(macaddr::MacAddr::V6(found)) => Some(MacAddress::V6(found.into_array())),
        Ok(macaddr::MacAddr::V8(found)) => Some(MacAddress::V8(found.into_array())),
        Err(_) => None,
    }
}

proof fn digits_are_no_colons(n: int)
    ensures
        hex_digit(n) != ':',
{
}

/// Removing the colons from the printed form leaves the hexadecimal
/// digits of the octets and nothing else.
pub proof fn printed_without_colons_is_hex_run(octets: Seq<u8>)
    ensures
        without_colons(canonical_text(octets)) == hex_run(octets),
    decreases octets.len(),
{
    if octets.len() == 0 {
    } else {
        let high = hex_digit(octets[0] as int / 16);
        let low = hex_digit(octets[0] as int % 16);
        digits_are_no_colons(octets[0] as int / 16);
        digits_are_no_colons(octets[0] as int % 16);
        let text = canonical_text(octets);
        assert(text[0] == high && text[1] == low);
        if octets.len() == 1 {
            assert(text.skip(1).skip(1) =~= Seq::<char>::empty());
            assert(hex_run(octets.skip(1)) =~= Seq::<char>::empty());
            assert(without_colons(text.skip(1)) == seq![low] + without_colons(
                text.skip(1).skip(1),
            ));
            assert(without_colons(text) =~= hex_run(octets));
        } else {
            let rest = canonical_text(octets.skip(1));
            printed_without_colons_is_hex_run(octets.skip(1));
            assert(text.skip(1)[0] == low);
            assert(text.skip(1).skip(1)[0] == ':');
            assert(text.skip(1).skip(1).skip(1) =~= rest);
            assert(without_colons(text.skip(1).skip(1)) == without_colons(rest));
            assert(without_colons(text.skip(1)) == seq![low] + without_colons(
                text.skip(1).skip(1),
            ));
            assert(without_colons(text) =~= hex_run(octets));
        }
    }
}

impl MacAddress {
    /// The address as it is printed: upper-case hexadecimal octets with
    /// colons between them.
    pub fn to_text(&self) -> (text: String)
        ensures
            text@ == canonical_text(self@),
    {
        match self {
            MacAddress::V6(octets) => printed_six(octets),
            MacAddress::V8(octets) => printed_eight(octets),
        }
    }

    /// The address as the adapter's configuration stores it: the
    /// hexadecimal digits of the octets, without separators.
    pub fn registry_value(&self) -> (value: String)
        ensures
            value@ == hex_run(self@),
            value@.len() == 2 * self@.len(),
    {
        let text = self.to_text();
        let value = colons_removed(text.as_str());
        proof {
            printed_without_colons_is_hex_run(self@);
            hex_run_len(self@);
        }
        value
    }

    /// Reads an address from a text; `None` where the text is no address.
    pub fn parse(text: &str) -> (mac: Option<MacAddress>)
        ensures
            mac is Some == parsed_address(text@) is Some,
            mac matches Some(found) ==> parsed_address(text@) == Some(found@),
    {
        parsed(text)
    }
}

proof fn hex_run_len(octets: Seq<u8>)
    ensures
        hex_run(octets).len() == 2 * octets.len(),
    decreases octets.len(),
{
    if octets.len() > 0 {
        hex_run_len(octets.skip(1));
    }
}

} // verus!
