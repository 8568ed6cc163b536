use macchanger_lib::error::{LinuxMacchangerError, MacchangerError};
use macchanger_lib::linux::{
    enumerated, hardware_identity, list_adapters, list_interfaces, IdentityFile, LinuxAdapter,
    LinuxInterface, OptionalLinuxInterface, RawAdapterRecord,
};
use macchanger_lib::mac::MacAddress;
use macchanger_lib::vendor::{adapter_name, parse_hardware_id, HardwareIdentity, IdSyntax};
use macchanger_lib::{
    retrieve_adapters, retrieve_interfaces, Adapter, Enumeration, Interface,
};

const MAC: [u8; 6] = [0x00, 0x11, 0x22, 0x33, 0x44, 0x55];

fn contents(text: &str) -> IdentityFile {
    IdentityFile::Contents(text.to_string())
}

fn physical(name: &str, address: Option<[u8; 6]>, vendor: &str, device: &str) -> RawAdapterRecord {
    RawAdapterRecord {
        name: name.to_string(),
        address,
        vendor: contents(vendor),
        device: contents(device),
    }
}

fn virtual_record(name: &str, address: Option<[u8; 6]>) -> RawAdapterRecord {
    RawAdapterRecord {
        name: name.to_string(),
        address,
        vendor: IdentityFile::Missing,
        device: IdentityFile::Missing,
    }
}

fn lookup_error(reason: &str) -> MacchangerError {
    MacchangerError::LinuxError(LinuxMacchangerError::AdapterNameLookup(reason.to_string()))
}

#[test]
fn one_physical_and_one_virtual_record() {
    let records = vec![
        physical("eth0", Some(MAC), "0x8086\n", "0x1533\n"),
        virtual_record("docker0", Some([0x02, 0x42, 0xac, 0x11, 0x00, 0x01])),
    ];
    let adapters = list_adapters(&records).unwrap();
    assert_eq!(
        adapters,
        vec![LinuxAdapter {
            name: "I210 Gigabit Network Connection".to_string(),
            mac: MacAddress::V6(MAC),
        }]
    );
    let interfaces = list_interfaces(&records).unwrap();
    assert_eq!(interfaces.len(), 1);
    assert_eq!(interfaces[0].name, "eth0");
    assert_eq!(interfaces[0].adapter, adapters[0]);
}

#[test]
fn platform_neutral_listing_of_the_same_records() {
    let found = Enumeration::Linux(vec![
        physical("eth0", Some(MAC), "0x8086\n", "0x1533\n"),
        virtual_record("lo", None),
    ]);
    assert_eq!(
        retrieve_adapters(&found).unwrap(),
        vec![Adapter { name: "I210 Gigabit Network Connection".to_string() }]
    );
    assert_eq!(
        retrieve_interfaces(&found).unwrap(),
        vec![Interface { name: "eth0".to_string(), mac: MacAddress::V6(MAC) }]
    );
}

#[test]
fn records_without_address_are_excluded() {
    let records = vec![
        physical("eth0", None, "0x8086", "0x1533"),
        physical("eth1", Some([0; 6]), "0x8086", "0x1533"),
        physical("eth2", Some(MAC), "0x10ec", "0x8168"),
    ];
    let interfaces = list_interfaces(&records).unwrap();
    assert_eq!(interfaces.len(), 1);
    assert_eq!(interfaces[0].name, "eth2");
    assert_eq!(
        interfaces[0].adapter.name,
        "RTL8111/8168/8211/8411 PCI Express Gigabit Ethernet Controller"
    );
    let adapters = list_adapters(&records).unwrap();
    assert_eq!(adapters.len(), 1);
    assert_eq!(adapters[0].mac, MacAddress::V6(MAC));
}

#[test]
fn unaddressed_record_with_broken_identity_is_no_error() {
    let records = vec![physical("tun0", None, "garbage", "0x1533")];
    assert_eq!(list_interfaces(&records), Ok(vec![]));
    assert_eq!(list_adapters(&records), Ok(vec![]));
}

#[test]
fn empty_enumeration_lists_nothing() {
    assert_eq!(list_interfaces(&vec![]), Ok(vec![]));
    assert_eq!(list_adapters(&vec![]), Ok(vec![]));
}

#[test]
fn unknown_device_fails_the_scan() {
    let records = vec![
        physical("eth0", Some(MAC), "0x8086", "0x1533"),
        physical("eth1", Some(MAC), "0x8086", "0xfff0"),
        physical("eth2", Some(MAC), "0x10ec", "0x8168"),
    ];
    let expected = lookup_error("Could not find network adapter by vendor id and device id");
    assert_eq!(list_interfaces(&records), Err(expected.clone()));
    assert_eq!(list_adapters(&records), Err(expected.clone()));
    assert_eq!(retrieve_adapters(&Enumeration::Linux(records.clone())), Err(expected.clone()));
    assert_eq!(retrieve_interfaces(&Enumeration::Linux(records)), Err(expected));
}

#[test]
fn first_failure_is_the_one_reported() {
    let records = vec![
        physical("eth0", Some(MAC), "0x", "0x1533"),
        physical("eth1", Some(MAC), "0x8086", "0xfff0"),
    ];
    assert_eq!(
        list_interfaces(&records),
        Err(lookup_error("cannot parse integer from empty string"))
    );
}

#[test]
fn malformed_identifiers_fail_with_their_reason() {
    let cases = [
        ("8086", "0x1533", "hardware id does not start with 0x"),
        ("0x80g6", "0x1533", "invalid digit found in string"),
        ("0x8086", "0x", "cannot parse integer from empty string"),
        ("0x8086", "0x15330", "number too large to fit in target type"),
    ];
    for (vendor, device, reason) in cases {
        let record = physical("eth0", Some(MAC), vendor, device);
        assert_eq!(
            OptionalLinuxInterface::try_from(&record),
            Err(LinuxMacchangerError::AdapterNameLookup(reason.to_string()))
        );
    }
}

#[test]
fn unreadable_identity_fails_with_the_reason_given() {
    let record = RawAdapterRecord {
        name: "eth0".to_string(),
        address: Some(MAC),
        vendor: IdentityFile::Unreadable("Permission denied (os error 13)".to_string()),
        device: contents("0x1533"),
    };
    assert_eq!(
        OptionalLinuxInterface::try_from(&record),
        Err(LinuxMacchangerError::AdapterNameLookup(
            "Permission denied (os error 13)".to_string()
        ))
    );
    let record = RawAdapterRecord {
        name: "eth0".to_string(),
        address: Some(MAC),
        vendor: contents("0x8086"),
        device: IdentityFile::Unreadable("Input/output error (os error 5)".to_string()),
    };
    assert_eq!(
        OptionalLinuxInterface::try_from(&record),
        Err(LinuxMacchangerError::AdapterNameLookup(
            "Input/output error (os error 5)".to_string()
        ))
    );
}

#[test]
fn resolving_single_records() {
    let record = physical("enp3s0", Some(MAC), "0x8086\n", "0x1533\n");
    assert_eq!(
        OptionalLinuxInterface::try_from(&record),
        Ok(OptionalLinuxInterface(Some(LinuxInterface {
            name: "enp3s0".to_string(),
            adapter: LinuxAdapter {
                name: "I210 Gigabit Network Connection".to_string(),
                mac: MacAddress::V6(MAC),
            },
        })))
    );
    assert_eq!(
        OptionalLinuxInterface::try_from(&virtual_record("veth0", Some(MAC))),
        Ok(OptionalLinuxInterface(None))
    );
    let half = RawAdapterRecord {
        name: "x".to_string(),
        address: Some(MAC),
        vendor: IdentityFile::Unreadable("why".to_string()),
        device: IdentityFile::Missing,
    };
    assert_eq!(OptionalLinuxInterface::try_from(&half), Ok(OptionalLinuxInterface(None)));
}

#[test]
fn hardware_identity_of_two_texts() {
    assert_eq!(
        hardware_identity(&contents("0x8086\n"), &contents("0x1533\n")),
        Ok(Some(HardwareIdentity { vendor_id: 0x8086, device_id: 0x1533 }))
    );
    assert_eq!(hardware_identity(&IdentityFile::Missing, &contents("0x1533")), Ok(None));
    assert_eq!(hardware_identity(&contents("zz"), &IdentityFile::Missing), Ok(None));
}

#[test]
fn identifier_grammar() {
    assert_eq!(parse_hardware_id(b"0x8086\n"), IdSyntax::Value(0x8086));
    assert_eq!(parse_hardware_id(b"0x1533"), IdSyntax::Value(0x1533));
    assert_eq!(parse_hardware_id(b"0xffff \t\r\n"), IdSyntax::Value(0xffff));
    assert_eq!(parse_hardware_id(b"0xABcd"), IdSyntax::Value(0xabcd));
    assert_eq!(parse_hardware_id(b"0x0000001"), IdSyntax::Value(1));
    assert_eq!(parse_hardware_id(b"0x0"), IdSyntax::Value(0));
    assert_eq!(parse_hardware_id(b"0x10000"), IdSyntax::TooLarge);
    assert_eq!(parse_hardware_id(b"0x123456789abcdef0123"), IdSyntax::TooLarge);
    assert_eq!(parse_hardware_id(b"0x"), IdSyntax::Empty);
    assert_eq!(parse_hardware_id(b"0x\n"), IdSyntax::Empty);
    assert_eq!(parse_hardware_id(b"0x12 34"), IdSyntax::InvalidDigit);
    assert_eq!(parse_hardware_id(b"0x+12"), IdSyntax::Value(0x12));
    assert_eq!(parse_hardware_id(b"0x+8086\n"), IdSyntax::Value(0x8086));
    assert_eq!(parse_hardware_id(b"0x+"), IdSyntax::InvalidDigit);
    assert_eq!(parse_hardware_id(b"0x++1"), IdSyntax::InvalidDigit);
    assert_eq!(parse_hardware_id(b"0x1+"), IdSyntax::InvalidDigit);
    assert_eq!(parse_hardware_id(b"0x-12"), IdSyntax::InvalidDigit);
    assert_eq!(parse_hardware_id(b"0x+10000"), IdSyntax::TooLarge);
    assert_eq!(parse_hardware_id(b"0x1234z5"), IdSyntax::InvalidDigit);
    assert_eq!(parse_hardware_id(b"0x12345z"), IdSyntax::TooLarge);
    assert_eq!(parse_hardware_id(b"0xz12345"), IdSyntax::InvalidDigit);
    assert_eq!(parse_hardware_id(b"0X12"), IdSyntax::NoPrefix);
    assert_eq!(parse_hardware_id(b"8086"), IdSyntax::NoPrefix);
    assert_eq!(parse_hardware_id(b""), IdSyntax::NoPrefix);
    assert_eq!(parse_hardware_id(b"\n"), IdSyntax::NoPrefix);
    assert_eq!(parse_hardware_id(b" 0x12"), IdSyntax::NoPrefix);
}

#[test]
fn vendor_lookup_names_devices_and_the_virtual_adapter() {
    assert_eq!(adapter_name(None), Some("Virtual Adapter".to_string()));
    assert_eq!(
        adapter_name(Some(HardwareIdentity { vendor_id: 0x8086, device_id: 0x1533 })),
        Some("I210 Gigabit Network Connection".to_string())
    );
    assert_eq!(
        adapter_name(Some(HardwareIdentity { vendor_id: 0x1533, device_id: 0x8086 })),
        None
    );
    assert_eq!(adapter_name(Some(HardwareIdentity { vendor_id: 0x8086, device_id: 0xfff0 })), None);
}

#[test]
fn unsupported_host_lists_nothing() {
    assert_eq!(
        retrieve_adapters(&Enumeration::Unsupported),
        Err(MacchangerError::UnsupportedPlatform)
    );
    assert_eq!(
        retrieve_interfaces(&Enumeration::Unsupported),
        Err(MacchangerError::UnsupportedPlatform)
    );
}

#[test]
fn identifier_may_end_in_any_white_space() {
    let spaces = [
        '\u{9}', '\u{a}', '\u{b}', '\u{c}', '\u{d}', ' ', '\u{85}', '\u{a0}', '\u{1680}',
        '\u{2000}', '\u{2005}', '\u{200a}', '\u{2028}', '\u{2029}', '\u{202f}', '\u{205f}',
        '\u{3000}',
    ];
    for space in spaces {
        assert!(space.is_whitespace());
        let text = format!("0x1533{}\n{}", space, space);
        assert_eq!(parse_hardware_id(text.as_bytes()), IdSyntax::Value(0x1533), "{:?}", space);
        assert_eq!(
            parse_hardware_id(text.as_bytes()),
            match u16::from_str_radix(text.trim_end().strip_prefix("0x").unwrap(), 16) {
                Ok(value) => IdSyntax::Value(value),
                Err(_) => IdSyntax::InvalidDigit,
            }
        );
    }
    for other in ['\u{200b}', '\u{feff}', '\u{2060}', '\u{180e}', '\u{86}', 'x'] {
        assert!(!other.is_whitespace());
        let text = format!("0x1533{}", other);
        assert_eq!(parse_hardware_id(text.as_bytes()), IdSyntax::InvalidDigit, "{:?}", other);
    }
    let record = physical("eth0", Some(MAC), "0x+8086\u{2003}\n", "0x1533\u{a0}");
    assert_eq!(list_interfaces(&vec![record]).unwrap()[0].name, "eth0");
}

#[test]
fn identifier_grammar_agrees_with_radix_parsing() {
    let texts = [
        "0x8086", "0x+1", "0x+", "0x", "0x-1", "0x00000ffff", "0x10000", "0xfffff", "0x12345z",
        "0x1234z5", "0xg", "0x 1", "0x1 ", "0x+ff\t", "0xFFFF\r\n", "0x0001\u{3000}",
    ];
    for text in texts {
        let expected = match u16::from_str_radix(text.trim_end().strip_prefix("0x").unwrap(), 16) {
            Ok(value) => IdSyntax::Value(value),
            Err(e) => match e.to_string().as_str() {
                "cannot parse integer from empty string" => IdSyntax::Empty,
                "invalid digit found in string" => IdSyntax::InvalidDigit,
                _ => IdSyntax::TooLarge,
            },
        };
        assert_eq!(parse_hardware_id(text.as_bytes()), expected, "{:?}", text);
    }
}

#[test]
fn failed_interface_list_call_is_an_enumeration_failure() {
    assert_eq!(enumerated(Err(12)), Err(MacchangerError::ListInterfacesError));
    assert_eq!(enumerated(Err(24)), Err(MacchangerError::ListInterfacesError));
    let records = vec![physical("eth0", Some(MAC), "0x8086", "0x1533")];
    assert_eq!(enumerated(Ok(records.clone())), Ok(records));
    assert_eq!(enumerated(Ok(vec![])), Ok(vec![]));
}
