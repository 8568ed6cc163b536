use macchanger_lib::error::{LinuxMacchangerError, MacchangerError, MutationError, Stage};
use macchanger_lib::hardware::get_hardware_mac;
use macchanger_lib::linux::{IdentityFile, RawAdapterRecord};
use macchanger_lib::mac::MacAddress;
use macchanger_lib::mutator::{
    change_interface_active, change_mac, find_interface, Move, Mutator, Outcome, Phase, Reply,
    Request, ToggleStep, Toggled,
};
use macchanger_lib::request::{EthtoolRequest, IfreqAddress, IfreqFlags};
use macchanger_lib::{do_change_mac, Change, Enumeration};

const OLD: [u8; 6] = [0x00, 0x11, 0x22, 0x33, 0x44, 0x55];
const NEW: [u8; 6] = [0x02, 0xaa, 0xbb, 0xcc, 0xdd, 0xee];

fn record(name: &str) -> RawAdapterRecord {
    RawAdapterRecord {
        name: name.to_string(),
        address: Some(OLD),
        vendor: IdentityFile::Contents("0x8086\n".to_string()),
        device: IdentityFile::Contents("0x1533\n".to_string()),
    }
}

fn name_of(text: &str) -> [u8; 16] {
    let mut name = [0u8; 16];
    name[..text.len()].copy_from_slice(text.as_bytes());
    name
}

fn started(mac: MacAddress) -> Mutator {
    change_mac(mac, &"eth0".to_string(), &vec![record("lo0"), record("eth0")]).unwrap()
}

fn failure(stage: Stage, cause: MacchangerError) -> Move {
    Move::Done(Outcome::Failed(MutationError { stage, cause }))
}

fn linux(e: LinuxMacchangerError) -> MacchangerError {
    MacchangerError::LinuxError(e)
}

/// Drives a change with the replies given and returns every move made.
fn drive(machine: &mut Mutator, replies: &[Reply]) -> Vec<Move> {
    let mut moves = Vec::new();
    for reply in replies {
        let made = machine.advance(*reply);
        let done = matches!(made, Move::Done(_));
        moves.push(made);
        if done {
            break;
        }
    }
    moves
}

#[test]
fn change_begins_at_the_control_socket() {
    let machine = started(MacAddress::V6(NEW));
    assert_eq!(machine.phase, Phase::Control);
    assert_eq!(machine.target, MacAddress::V6(NEW));
    assert_eq!(machine.name, name_of("eth0"));
    assert_eq!(
        machine.address,
        IfreqAddress {
            name: name_of("eth0"),
            family: 1,
            data: [0x02, 0xaa, 0xbb, 0xcc, 0xdd, 0xee, 0, 0, 0, 0, 0, 0, 0, 0],
        }
    );
}

#[test]
fn successful_change_makes_the_requests_in_order() {
    let mut machine = started(MacAddress::V6(NEW));
    let name = name_of("eth0");
    let moves = drive(
        &mut machine,
        &[
            Reply::Accepted(0),
            Reply::Accepted(0),
            Reply::Accepted(0x1043),
            Reply::Accepted(0x1042),
            Reply::Accepted(0),
            Reply::Accepted(0),
            Reply::Accepted(0x1042),
            Reply::Accepted(0x1043),
        ],
    );
    assert_eq!(
        moves,
        vec![
            Move::Ask(Request::OpenSocket),
            Move::Ask(Request::GetFlags(IfreqFlags { name, value: 0 })),
            Move::Ask(Request::SetFlags(IfreqFlags { name, value: 0x1042 })),
            Move::Ask(Request::SetAddress(IfreqAddress {
                name,
                family: 1,
                data: [0x02, 0xaa, 0xbb, 0xcc, 0xdd, 0xee, 0, 0, 0, 0, 0, 0, 0, 0],
            })),
            Move::Ask(Request::OpenSocket),
            Move::Ask(Request::GetFlags(IfreqFlags { name, value: 0 })),
            Move::Ask(Request::SetFlags(IfreqFlags { name, value: 0x1043 })),
            Move::Done(Outcome::Changed(MacAddress::V6(NEW))),
        ]
    );
    assert_eq!(machine.phase, Phase::Finished);
}

#[test]
fn failed_deactivation_makes_no_address_request() {
    let rejections: Vec<(Vec<Reply>, MacchangerError)> = vec![
        (vec![Reply::Rejected(24)], linux(LinuxMacchangerError::GetSocket(24))),
        (
            vec![Reply::Accepted(0), Reply::Rejected(23)],
            linux(LinuxMacchangerError::GetSocket(23)),
        ),
        (
            vec![Reply::Accepted(0), Reply::Accepted(0), Reply::Rejected(19)],
            linux(LinuxMacchangerError::GetIfrFlags(19)),
        ),
        (
            vec![Reply::Accepted(0), Reply::Accepted(0), Reply::Accepted(0x43), Reply::Rejected(1)],
            linux(LinuxMacchangerError::SetIfrFlags(1)),
        ),
        (
            vec![
                Reply::Accepted(0),
                Reply::Accepted(0),
                Reply::Accepted(0x43),
                Reply::Accepted(0x43),
            ],
            MacchangerError::ConnectionResetError,
        ),
    ];
    for (replies, cause) in rejections {
        let mut machine = started(MacAddress::V6(NEW));
        let moves = drive(&mut machine, &replies);
        assert_eq!(moves.last(), Some(&failure(Stage::Deactivate, cause)));
        assert!(moves.iter().all(|m| !matches!(m, Move::Ask(Request::SetAddress(_)))));
        assert_eq!(machine.phase, Phase::Finished);
    }
}

#[test]
fn rejected_address_fails_at_reassign() {
    let mut machine = started(MacAddress::V6(NEW));
    let moves = drive(
        &mut machine,
        &[
            Reply::Accepted(0),
            Reply::Accepted(0),
            Reply::Accepted(1),
            Reply::Accepted(0),
            Reply::Rejected(16),
        ],
    );
    assert_eq!(
        moves.last(),
        Some(&failure(Stage::Reassign, linux(LinuxMacchangerError::SetMacAddress(16))))
    );
    assert_eq!(moves.len(), 5);
}

#[test]
fn failed_reactivation_is_reported_and_not_rolled_back() {
    let down = [
        Reply::Accepted(0),
        Reply::Accepted(0),
        Reply::Accepted(1),
        Reply::Accepted(0),
        Reply::Accepted(0),
    ];
    let tails: Vec<(Vec<Reply>, MacchangerError)> = vec![
        (vec![Reply::Rejected(24)], linux(LinuxMacchangerError::GetSocket(24))),
        (
            vec![Reply::Accepted(0), Reply::Rejected(5)],
            linux(LinuxMacchangerError::GetIfrFlags(5)),
        ),
        (
            vec![Reply::Accepted(0), Reply::Accepted(0), Reply::Rejected(6)],
            linux(LinuxMacchangerError::SetIfrFlags(6)),
        ),
        (
            vec![Reply::Accepted(0), Reply::Accepted(0), Reply::Accepted(0x1042)],
            MacchangerError::ConnectionResetError,
        ),
    ];
    for (tail, cause) in tails {
        let mut machine = started(MacAddress::V6(NEW));
        let mut replies = down.to_vec();
        replies.extend(tail);
        let moves = drive(&mut machine, &replies);
        assert_eq!(moves.last(), Some(&failure(Stage::Reactivate, cause)));
        let address_requests =
            moves.iter().filter(|m| matches!(m, Move::Ask(Request::SetAddress(_)))).count();
        assert_eq!(address_requests, 1);
    }
}

#[test]
fn reply_after_the_end_is_stray() {
    let mut machine = started(MacAddress::V6(NEW));
    assert!(matches!(machine.advance(Reply::Rejected(1)), Move::Done(Outcome::Failed(_))));
    assert_eq!(machine.advance(Reply::Accepted(0)), Move::Done(Outcome::Stray));
    assert_eq!(machine.advance(Reply::Rejected(2)), Move::Done(Outcome::Stray));
    assert_eq!(machine.phase, Phase::Finished);
}

#[test]
fn switching_an_interface_step_by_step() {
    let name = name_of("eth0");
    assert_eq!(
        change_interface_active(&name, false, ToggleStep::Opening, Reply::Accepted(0)),
        Toggled::Ask(ToggleStep::Reading, Request::GetFlags(IfreqFlags { name, value: 0 }))
    );
    assert_eq!(
        change_interface_active(&name, false, ToggleStep::Reading, Reply::Accepted(0x1043)),
        Toggled::Ask(ToggleStep::Writing, Request::SetFlags(IfreqFlags { name, value: 0x1042 }))
    );
    assert_eq!(
        change_interface_active(&name, true, ToggleStep::Reading, Reply::Accepted(0x1042)),
        Toggled::Ask(ToggleStep::Writing, Request::SetFlags(IfreqFlags { name, value: 0x1043 }))
    );
    assert_eq!(
        change_interface_active(&name, true, ToggleStep::Writing, Reply::Accepted(0x1043)),
        Toggled::Settled(Ok(true))
    );
    assert_eq!(
        change_interface_active(&name, true, ToggleStep::Writing, Reply::Accepted(0x1042)),
        Toggled::Settled(Ok(false))
    );
    assert_eq!(
        change_interface_active(&name, true, ToggleStep::Opening, Reply::Rejected(13)),
        Toggled::Settled(Err(linux(LinuxMacchangerError::GetSocket(13))))
    );
    assert_eq!(
        change_interface_active(&name, true, ToggleStep::Reading, Reply::Rejected(13)),
        Toggled::Settled(Err(linux(LinuxMacchangerError::GetIfrFlags(13))))
    );
    assert_eq!(
        change_interface_active(&name, true, ToggleStep::Writing, Reply::Rejected(13)),
        Toggled::Settled(Err(linux(LinuxMacchangerError::SetIfrFlags(13))))
    );
}

#[test]
fn change_is_refused_before_anything_is_asked() {
    let records = vec![record("eth0")];
    assert_eq!(
        change_mac(MacAddress::V6(NEW), &"wlan0".to_string(), &records),
        Err(MacchangerError::Generic)
    );
    let long = "an_interface_name_too_long".to_string();
    assert_eq!(
        change_mac(MacAddress::V6(NEW), &long, &vec![record(&long)]),
        Err(linux(LinuxMacchangerError::CreateIfreqAddress(
            "failed to write whole buffer".to_string()
        )))
    );
    let mut broken = record("eth1");
    broken.device = IdentityFile::Contents("0xfff0".to_string());
    assert_eq!(
        change_mac(MacAddress::V6(NEW), &"eth0".to_string(), &vec![record("eth0"), broken]),
        Err(linux(LinuxMacchangerError::AdapterNameLookup(
            "Could not find network adapter by vendor id and device id".to_string()
        )))
    );
    let mut unaddressed = record("eth0");
    unaddressed.address = None;
    assert_eq!(
        change_mac(MacAddress::V6(NEW), &"eth0".to_string(), &vec![unaddressed]),
        Err(MacchangerError::Generic)
    );
}

#[test]
fn finding_an_interface_by_name() {
    let listed = macchanger_lib::linux::list_interfaces(&vec![
        record("eth0"),
        record("eth1"),
        record("eth0"),
    ])
    .unwrap();
    assert_eq!(find_interface(&listed, &"eth0".to_string()), Some(0));
    assert_eq!(find_interface(&listed, &"eth1".to_string()), Some(1));
    assert_eq!(find_interface(&listed, &"eth2".to_string()), None);
    assert_eq!(find_interface(&vec![], &"eth0".to_string()), None);
}

#[test]
fn restoring_the_hardware_address_round_trips() {
    let mut data = [0u8; 32];
    data[..6].copy_from_slice(&[0x3c, 0x97, 0x0e, 0x12, 0x34, 0x56]);
    let hardware =
        get_hardware_mac(Ok(EthtoolRequest { cmd: 0x20, size: 6, data })).unwrap();
    let mut machine = started(hardware);
    let moves = drive(
        &mut machine,
        &[
            Reply::Accepted(0),
            Reply::Accepted(0),
            Reply::Accepted(0x1003),
            Reply::Accepted(0x1002),
            Reply::Accepted(0),
            Reply::Accepted(0),
            Reply::Accepted(0x1002),
            Reply::Accepted(0x1003),
        ],
    );
    assert_eq!(moves.last(), Some(&Move::Done(Outcome::Changed(hardware))));
    let written: Vec<[u8; 14]> = moves
        .iter()
        .filter_map(|m| match m {
            Move::Ask(Request::SetAddress(request)) => Some(request.data),
            _ => None,
        })
        .collect();
    assert_eq!(written, vec![[0x3c, 0x97, 0x0e, 0x12, 0x34, 0x56, 0, 0, 0, 0, 0, 0, 0, 0]]);
}

#[test]
fn platform_neutral_change() {
    let found = Enumeration::Linux(vec![record("eth0")]);
    match do_change_mac(MacAddress::V6(NEW), &"eth0".to_string(), &found) {
        Ok(Change::Linux(machine)) => {
            assert_eq!(machine.phase, Phase::Control);
            assert_eq!(machine.target, MacAddress::V6(NEW));
        }
        other => panic!("unexpected {:?}", other),
    }
    assert_eq!(
        do_change_mac(MacAddress::V6(NEW), &"eth9".to_string(), &found),
        Err(MacchangerError::Generic)
    );
    assert_eq!(
        do_change_mac(MacAddress::V6(NEW), &"eth0".to_string(), &Enumeration::Unsupported),
        Err(MacchangerError::UnsupportedPlatform)
    );
}
