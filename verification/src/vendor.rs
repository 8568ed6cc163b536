//! Hardware identity: reading the bus identifiers that the system publishes
//! as short texts, and naming a device from the PCI identifier database.

use vstd::prelude::*;

verus! {

/// The name that stands for an adapter without a hardware identity.
pub const VIRTUAL_ADAPTER: &'static str = "Virtual Adapter";

/// The vendor and device numbers under which a bus device is registered.
#[derive(Clone, Copy, Debug, PartialEq, Eq, Structural)]
pub struct HardwareIdentity {
    pub vendor_id: u16,
    pub device_id: u16,
}

/// What an identifier text turned out to be.
#[derive(Clone, Copy, Debug, PartialEq, Eq, Structural)]
pub enum IdSyntax {
    /// A well-formed identifier, with its value.
    Value(u16),
    /// The text does not begin with `0x`.
    NoPrefix,
    /// Nothing follows the prefix.
    Empty,
    /// A character after the prefix is no hexadecimal digit.
    InvalidDigit,
    /// The digits denote a number above `0xffff`.
    TooLarge,
}

/// Whether the three octets encode one of the white-space characters above
/// U+00FF: U+1680, U+2000 to U+200A, U+2028, U+2029, U+202F, U+205F and
/// U+3000.
pub open spec fn wide_space(a: u8, b: u8, c: u8) -> bool {
    ||| a == 0xe1 && b == 0x9a && c == 0x80
    ||| a == 0xe2 && b == 0x80 && (0x80 <= c && c <= 0x8a || c == 0xa8 || c == 0xa9 || c == 0xaf)
    ||| a == 0xe2 && b == 0x81 && c == 0x9f
    ||| a == 0xe3 && b == 0x80 && c == 0x80
}

/// The number of octets of the white-space character that ends `text`,
/// and zero where `text` ends in none. White space is what Unicode calls
/// so: the ASCII blanks and controls, U+0085, U+00A0 and the wide ones.
pub open spec fn space_suffix(text: Seq<u8>) -> nat {
    let n = text.len() as int;
    if n >= 1 && (text[n - 1] == 0x20 || (0x09 <= text[n - 1] && text[n - 1] <= 0x0d)) {
        1
    } else if n >= 2 && text[n - 2] == 0xc2 && (text[n - 1] == 0x85 || text[n - 1] == 0xa0) {
        2
    } else if n >= 3 && wide_space(text[n - 3], text[n - 2], text[n - 1]) {
        3
    } else {
        0
    }
}

/// The length of `text` without the white space at its end.
pub open spec fn trimmed_len(text: Seq<u8>) -> nat
    decreases text.len(),
{
    let k = space_suffix(text);
    if 0 < k <= text.len() {
        trimmed_len(text.take(text.len() - k))
    } else {
        text.len()
    }
}

/// The value of one hexadecimal digit, in either case.
pub open spec fn hex_value(b: u8) -> Option<int> {
    if 0x30 <= b && b <= 0x39 {
        Some(b - 0x30)
    } else if 0x61 <= b && b <= 0x66 {
        Some(b - 0x61 + 10)
    } else if 0x41 <= b && b <= 0x46 {
        Some(b - 0x41 + 10)
    } else {
        None
    }
}

/// Whether `digits` holds hexadecimal digits only.
pub open spec fn all_hex(digits: Seq<u8>) -> bool {
    forall|i: int| 0 <= i < digits.len() ==> hex_value(#[trigger] digits[i]) is Some
}

/// The number that `digits` denote in base sixteen.
pub open spec fn hex_number(digits: Seq<u8>) -> int
    decreases digits.len(),
{
    if digits.len() == 0 {
        0
    } else {
        16 * hex_number(digits.drop_last()) + match hex_value(digits.last()) {
            Some(v) => v,
            None => 0,
        }
    }
}

/// What the digits of an identifier come to, read from the left: their
/// number, or the first thing wrong with them, which is a character that
/// is no digit or a digit with which the number passes `0xffff`.
pub open spec fn digits_syntax(digits: Seq<u8>) -> IdSyntax
    decreases digits.len(),
{
    if digits.len() == 0 {
        IdSyntax::Value(0)
    } else {
        match digits_syntax(digits.drop_last()) {
            IdSyntax::Value(before) => match hex_value(digits.last()) {
                None => IdSyntax::InvalidDigit,
                Some(digit) => if 16 * before + digit > 0xffff {
                    IdSyntax::TooLarge
                } else {
                    IdSyntax::Value((16 * before + digit) as u16)
                },
            },
            fault => fault,
        }
    }
}

/// The grammar of an identifier text: `0x`, an optional plus sign, one or
/// more hexadecimal digits that denote at most `0xffff`, then any amount
/// of white space. Nothing may stand before the prefix.
pub open spec fn id_syntax(text: Seq<u8>) -> IdSyntax {
    let body = text.take(trimmed_len(text) as int);
    if body.len() < 2 || body[0] != 0x30 || body[1] != 0x78 {
        IdSyntax::NoPrefix
    } else {
        let rest = body.skip(2);
        if rest.len() == 0 {
            IdSyntax::Empty
        } else if rest[0] != 0x2b {
            digits_syntax(rest)
        } else if rest.len() == 1 {
            IdSyntax::InvalidDigit
        } else {
            digits_syntax(rest.skip(1))
        }
    }
}

proof fn hex_number_is_natural(digits: Seq<u8>)
    ensures
        0 <= hex_number(digits),
    decreases digits.len(),
{
    if digits.len() > 0 {
        hex_number_is_natural(digits.drop_last());
    }
}

/// Digits are well formed exactly when each is a hexadecimal digit and
/// their number is at most `0xffff`, and then they come to that number.
pub proof fn well_formed_digits_denote_their_number(digits: Seq<u8>)
    ensures
        digits_syntax(digits) is Value <==> all_hex(digits) && hex_number(digits) <= 0xffff,
        digits_syntax(digits) matches IdSyntax::Value(v) ==> v == hex_number(digits),
    decreases digits.len(),
{
    if digits.len() > 0 {
        let before = digits.drop_last();
        well_formed_digits_denote_their_number(before);
        hex_number_is_natural(before);
        if all_hex(digits) {
            assert forall|i: int| 0 <= i < before.len() implies hex_value(
                #[trigger] before[i],
            ) is Some by {
                assert(before[i] == digits[i]);
            }
            assert(hex_value(digits[digits.len() - 1]) is Some);
        }
        if all_hex(before) && hex_value(digits.last()) is Some {
            assert forall|i: int| 0 <= i < digits.len() implies hex_value(
                #[trigger] digits[i],
            ) is Some by {
                if i < before.len() {
                    assert(before[i] == digits[i]);
                }
            }
        }
    }
}

fn space_suffix_of(text: &[u8], end: usize) -> (k: usize)
    requires
        end <= text.len(),
    ensures
        k == space_suffix(text@.take(end as int)),
        k <= end,
{
    if end >= 1 && (text[end - 1] == 0x20 || (0x09 <= text[end - 1] && text[end - 1] <= 0x0d)) {
        return 1;
    }
    if end >= 2 && text[end - 2] == 0xc2 && (text[end - 1] == 0x85 || text[end - 1] == 0xa0) {
        return 2;
    }
    if end >= 3 {
        let a = text[end - 3];
        let b = text[end - 2];
        let c = text[end - 1];
        if (a == 0xe1 && b == 0x9a && c == 0x80) || (a == 0xe2 && b == 0x80 && ((0x80 <= c && c
            <= 0x8a) || c == 0xa8 || c == 0xa9 || c == 0xaf)) || (a == 0xe2 && b == 0x81 && c
            == 0x9f) || (a == 0xe3 && b == 0x80 && c == 0x80) {
            return 3;
        }
    }
    0
}

fn digit_value(b: u8) -> (v: Option<u8>)
    ensures
        v is Some == hex_value(b) is Some,
        v matches Some(d) ==> hex_value(b) == Some(d as int) && d < 16,
{
    if 0x30 <= b && b <= 0x39 {
        Some(b - 0x30)
    } else if 0x61 <= b && b <= 0x66 {
        Some(b - 0x61 + 10)
    } else if 0x41 <= b && b <= 0x46 {
        Some(b - 0x41 + 10)
    } else {
        None
    }
}

/// Reads an identifier text as the system publishes it, such as
/// `0x8086` followed by a line break.
pub fn parse_hardware_id(text: &[u8]) -> (syntax: IdSyntax)
    ensures
        syntax == id_syntax(text@),
{
    let mut end: usize = text.len();
    assert(text@.take(end as int) == text@);
    let mut k: usize = space_suffix_of(text, end);
    while k > 0
        invariant
            end <= text.len(),
            k <= end,
            k == space_suffix(text@.take(end as int)),
            trimmed_len(text@) == trimmed_len(text@.take(end as int)),
        decreases end,
    {
        assert(text@.take(end as int).take(end - k) == text@.take(end - k));
        end -= k;
        k = space_suffix_of(text, end);
    }
    assert(trimmed_len(text@) == end);
    if end < 2 || text[0] != 0x30 || text[1] != 0x78 {
        return IdSyntax::NoPrefix;
    }
    if end == 2 {
        return IdSyntax::Empty;
    }
    let start: usize = if text[2] == 0x2b { 3 } else { 2 };
    if start == end {
        return IdSyntax::InvalidDigit;
    }
    let ghost digits = text@.take(end as int).skip(start as int);
    assert(start == 3 ==> digits == text@.take(end as int).skip(2).skip(1));
    let mut value: u32 = 0;
    let mut i: usize = start;
    assert(digits.take(0) == Seq::<u8>::empty());
    while i < end
        invariant
            2 <= start <= i <= end <= text.len(),
            start < end,
            start == 2 || start == 3,
            trimmed_len(text@) == end,
            text@[0] == 0x30,
            text@[1] == 0x78,
            (text@[2] == 0x2b) == (start == 3),
            digits == text@.take(end as int).skip(start as int),
            start == 3 ==> digits == text@.take(end as int).skip(2).skip(1),
            value <= 0xffff,
            digits_syntax(digits.take(i - start)) == IdSyntax::Value(value as u16),
        decreases end - i,
    {
        let ghost after = digits.take(i - start + 1);
        assert(after.drop_last() == digits.take(i - start));
        assert(after.last() == text@[i as int]);
        match digit_value(text[i]) {
            None => {
                proof {
                    faults_last(digits, i - start + 1);
                }
                return IdSyntax::InvalidDigit;
            },
            Some(d) => {
                let next: u32 = value * 16 + d as u32;
                if next > 0xffff {
                    proof {
                        faults_last(digits, i - start + 1);
                    }
                    return IdSyntax::TooLarge;
                }
                value = next;
            },
        }
        i += 1;
    }
    assert(digits.take(end - start) == digits);
    IdSyntax::Value(value as u16)
}

/// What is wrong with the beginning of the digits is wrong with all of
/// them.
proof fn faults_last(digits: Seq<u8>, upto: int)
    requires
        0 <= upto <= digits.len(),
        !(digits_syntax(digits.take(upto)) is Value),
    ensures
        digits_syntax(digits) == digits_syntax(digits.take(upto)),
    decreases digits.len(),
{
    if upto < digits.len() {
        assert(digits.drop_last().take(upto) == digits.take(upto));
        faults_last(digits.drop_last(), upto);
    } else {
        assert(digits.take(upto) == digits);
    }
}

/// The name under which the PCI identifier database lists the device
/// `device` of the vendor `vendor`, if it lists one.
pub uninterp spec fn pci_device_name(vendor: u16, device: u16) -> Option<Seq<char>>;

/// Looks the pair up in the database compiled into `pci_ids`, by
/// `Device::from_vid_pid` and then `Device::name`. The database is fixed
/// when the crate is built, so the answer depends on the pair alone; the
/// contract gives it the name `pci_device_name` and claims nothing else.
#[verifier::external_body]
fn database_name(vendor: u16, device: u16) -> (name: Option<String>)
    ensures
        name is Some == pci_device_name(vendor, device) is Some,
        name matches Some(n) ==> pci_device_name(vendor, device) == Some(n@),
{
    match pci_ids::Device::from_vid_pid(vendor, device) {
        Some(found) => Some(found.name().to_owned()),
        None => None,
    }
}

/// What the vendor lookup says of an adapter, given what the database
/// holds for its identity: the sentinel for an adapter without identity,
/// the listed name for a known device, nothing for an unknown one.
pub open spec fn described(identity: Option<HardwareIdentity>) -> Option<Seq<char>> {
    match identity {
        None => Some(VIRTUAL_ADAPTER@),
        Some(id) => pci_device_name(id.vendor_id, id.device_id),
    }
}

/// The descriptive name of an adapter. An adapter without a hardware
/// identity gets the sentinel name; a physical one gets the name that the
/// database lists, and `None` where the database does not know it.
pub fn adapter_name(identity: Option<HardwareIdentity>) -> (name: Option<String>)
    ensures
        name is Some == described(identity) is Some,
        name matches Some(n) ==> described(identity) == Some(n@),
{
    match identity {
        None => Some(VIRTUAL_ADAPTER.to_owned()),
        Some(id) => database_name(id.vendor_id, id.device_id),
    }
}

} // verus!
