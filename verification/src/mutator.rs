//! Changing the address of a live interface through control requests: the
//! decisions of the sequence deactivate, reassign, reactivate. The caller
//! performs each request and hands back what the system answered.

use vstd::prelude::*;
use crate::error::{LinuxMacchangerError, MacchangerError, MutationError, Stage};
use crate::linux::{
    first_failure, interface_views, list_interfaces, listed, resolution, some_failure,
    InterfaceView, LinuxInterface, RawAdapterRecord, Resolution,
};
use crate::mac::MacAddress;
use crate::request::{
    is_up, name_octets, padded, set_active, up, with_active, IfreqAddress, IfreqFlags,
    ARPHRD_ETHER, IF_NAMESIZE, NAME_TOO_LONG,
};

verus! {

/// What the system answered to a request.
#[derive(Clone, Copy, Debug, PartialEq, Eq, Structural)]
pub enum Reply {
    /// The request went through. For a flags request the value is what the
    /// flags field of the request holds afterwards; otherwise it has no
    /// meaning.
    Accepted(u16),
    /// The system rejected the request with this error number.
    Rejected(i32),
}

/// What the caller is to ask of the system next.
#[derive(Clone, Copy, Debug, PartialEq, Eq)]
pub enum Request {
    /// Open a throwaway datagram socket for the requests that follow.
    OpenSocket,
    /// Read the interface flags.
    GetFlags(IfreqFlags),
    /// Write the interface flags.
    SetFlags(IfreqFlags),
    /// Write the link-layer address.
    SetAddress(IfreqAddress),
}

/// How an address change ended.
#[derive(Clone, Debug, PartialEq, Eq)]
pub enum Outcome {
    /// The interface is up again and carries this address.
    Changed(MacAddress),
    /// A stage failed; nothing was rolled back.
    Failed(MutationError),
    /// A reply arrived after the change had ended.
    Stray,
}

/// The next move of a change: another request, or the end.
#[derive(Clone, Debug, PartialEq, Eq)]
pub enum Move {
    Ask(Request),
    Done(Outcome),
}

/// The three requests that switch an interface on or off.
#[derive(Clone, Copy, Debug, PartialEq, Eq, Structural)]
pub enum ToggleStep {
    /// Waiting for the socket.
    Opening,
    /// Waiting for the current flags.
    Reading,
    /// Waiting for the answer to the new flags.
    Writing,
}

/// The next move of a switch: another request, or whether the interface
/// is up afterwards.
#[derive(Debug, PartialEq, Eq)]
pub enum Toggled {
    Ask(ToggleStep, Request),
    Settled(Result<bool, MacchangerError>),
}

/// Where a change stands.
#[derive(Clone, Copy, Debug, PartialEq, Eq, Structural)]
pub enum Phase {
    /// Waiting for the socket that will carry the address request.
    Control,
    /// Taking the interface down.
    Deactivating(ToggleStep),
    /// Waiting for the answer to the address request.
    Reassigning,
    /// Bringing the interface up.
    Reactivating(ToggleStep),
    /// The change has ended.
    Finished,
}

/// One address change in progress: the transient request to give the named
/// interface the target address, and how far it has come.
#[derive(Clone, Copy, Debug, PartialEq, Eq)]
pub struct Mutator {
    /// The name field of every request.
    pub name: [u8; 16],
    /// The address to set.
    pub target: MacAddress,
    /// The address request, prepared when the change began.
    pub address: IfreqAddress,
    pub phase: Phase,
}

/// The switch of an interface, one reply at a time: open a socket, read
/// the flags, write them back with the up flag set or cleared, and report
/// whether the flags then say that the interface is up.
pub open spec fn toggle(name: [u8; 16], active: bool, step: ToggleStep, reply: Reply) -> Toggled {
    match (step, reply) {
        (ToggleStep::Opening, Reply::Accepted(_)) => Toggled::Ask(
            ToggleStep::Reading,
            Request::GetFlags(IfreqFlags { name, value: 0 }),
        ),
        (ToggleStep::Opening, Reply::Rejected(errno)) => Toggled::Settled(
            Err(MacchangerError::LinuxError(LinuxMacchangerError::GetSocket(errno))),
        ),
        (ToggleStep::Reading, Reply::Accepted(flags)) => Toggled::Ask(
            ToggleStep::Writing,
            Request::SetFlags(IfreqFlags { name, value: with_active(flags, active) }),
        ),
        (ToggleStep::Reading, Reply::Rejected(errno)) => Toggled::Settled(
            Err(MacchangerError::LinuxError(LinuxMacchangerError::GetIfrFlags(errno))),
        ),
        (ToggleStep::Writing, Reply::Accepted(flags)) => Toggled::Settled(Ok(up(flags))),
        (ToggleStep::Writing, Reply::Rejected(errno)) => Toggled::Settled(
            Err(MacchangerError::LinuxError(LinuxMacchangerError::SetIfrFlags(errno))),
        ),
    }
}

/// The end of a change at a failed stage.
pub open spec fn failed(m: Mutator, stage: Stage, cause: MacchangerError) -> (Mutator, Move) {
    (
        Mutator { phase: Phase::Finished, ..m },
        Move::Done(Outcome::Failed(MutationError { stage, cause })),
    )
}

/// The transition of a change on one reply. A rejection ends the change at
/// the stage it occurred in. The address request is made only once the
/// flags say that the interface is down, and the change succeeds only once
/// they say that it is up again.
pub open spec fn step(m: Mutator, reply: Reply) -> (Mutator, Move) {
    match m.phase {
        Phase::Control => match reply {
            Reply::Accepted(_) => (
                Mutator { phase: Phase::Deactivating(ToggleStep::Opening), ..m },
                Move::Ask(Request::OpenSocket),
            ),
            Reply::Rejected(errno) => failed(
                m,
                Stage::Deactivate,
                MacchangerError::LinuxError(LinuxMacchangerError::GetSocket(errno)),
            ),
        },
        Phase::Deactivating(at) => match toggle(m.name, false, at, reply) {
            Toggled::Ask(next, request) => (
                Mutator { phase: Phase::Deactivating(next), ..m },
                Move::Ask(request),
            ),
            Toggled::Settled(Ok(status)) => if !status {
                (Mutator { phase: Phase::Reassigning, ..m }, Move::Ask(Request::SetAddress(m.address)))
            } else {
                failed(m, Stage::Deactivate, MacchangerError::ConnectionResetError)
            },
            Toggled::Settled(Err(cause)) => failed(m, Stage::Deactivate, cause),
        },
        Phase::Reassigning => match reply {
            Reply::Accepted(_) => (
                Mutator { phase: Phase::Reactivating(ToggleStep::Opening), ..m },
                Move::Ask(Request::OpenSocket),
            ),
            Reply::Rejected(errno) => failed(
                m,
                Stage::Reassign,
                MacchangerError::LinuxError(LinuxMacchangerError::SetMacAddress(errno)),
            ),
        },
        Phase::Reactivating(at) => match toggle(m.name, true, at, reply) {
            Toggled::Ask(next, request) => (
                Mutator { phase: Phase::Reactivating(next), ..m },
                Move::Ask(request),
            ),
            Toggled::Settled(Ok(status)) => if status {
                (Mutator { phase: Phase::Finished, ..m }, Move::Done(Outcome::Changed(m.target)))
            } else {
                failed(m, Stage::Reactivate, MacchangerError::ConnectionResetError)
            },
            Toggled::Settled(Err(cause)) => failed(m, Stage::Reactivate, cause),
        },
        Phase::Finished => (m, Move::Done(Outcome::Stray)),
    }
}

/// One step of switching the named interface on (`active`) or off.
pub fn change_interface_active(name: &[u8; 16], active: bool, at: ToggleStep, reply: Reply) -> (t:
    Toggled)
    ensures
        t == toggle(*name, active, at, reply),
{
    match at {
        ToggleStep::Opening => match reply {
            Reply::Accepted(_) => Toggled::Ask(
                ToggleStep::Reading,
                Request::GetFlags(IfreqFlags { name: *name, value: 0 }),
            ),
            Reply::Rejected(errno) => Toggled::Settled(
                Err(MacchangerError::LinuxError(LinuxMacchangerError::GetSocket(errno))),
            ),
        },
        ToggleStep::Reading => match reply {
            Reply::Accepted(flags) => Toggled::Ask(
                ToggleStep::Writing,
                Request::SetFlags(IfreqFlags { name: *name, value: set_active(flags, active) }),
            ),
            Reply::Rejected(errno) => Toggled::Settled(
                Err(MacchangerError::LinuxError(LinuxMacchangerError::GetIfrFlags(errno))),
            ),
        },
        ToggleStep::Writing => match reply {
            Reply::Accepted(flags) => Toggled::Settled(Ok(is_up(flags))),
            Reply::Rejected(errno) => Toggled::Settled(
                Err(MacchangerError::LinuxError(LinuxMacchangerError::SetIfrFlags(errno))),
            ),
        },
    }
}

impl Mutator {
    /// The prepared address request names the interface of the change and
    /// carries the target address.
    pub open spec fn wf(&self) -> bool {
        &&& self.address.name == self.name
        &&& self.address.family == ARPHRD_ETHER
        &&& self.address.data@ == padded(self.target@, 14)
    }

    fn fail(&mut self, stage: Stage, cause: MacchangerError) -> (mv: Move)
        ensures
            (*final(self), mv) == failed(*old(self), stage, cause),
    {
        self.phase = Phase::Finished;
        Move::Done(Outcome::Failed(MutationError { stage, cause }))
    }

    /// Takes the reply to the request that is pending and says what to do
    /// next.
    pub fn advance(&mut self, reply: Reply) -> (mv: Move)
        ensures
            (*final(self), mv) == step(*old(self), reply),
            old(self).wf() ==> final(self).wf(),
    {
        match self.phase {
            Phase::Control => match reply {
                Reply::Accepted(_) => {
                    self.phase = Phase::Deactivating(ToggleStep::Opening);
                    Move::Ask(Request::OpenSocket)
                },
                Reply::Rejected(errno) => self.fail(
                    Stage::Deactivate,
                    MacchangerError::LinuxError(LinuxMacchangerError::GetSocket(errno)),
                ),
            },
            Phase::Deactivating(at) => match change_interface_active(&self.name, false, at, reply) {
                Toggled::Ask(next, request) => {
                    self.phase = Phase::Deactivating(next);
                    Move::Ask(request)
                },
                Toggled::Settled(Ok(status)) => {
                    if !status {
                        self.phase = Phase::Reassigning;
                        Move::Ask(Request::SetAddress(self.address))
                    } else {
                        self.fail(Stage::Deactivate, MacchangerError::ConnectionResetError)
                    }
                },
                Toggled::Settled(Err(cause)) => self.fail(Stage::Deactivate, cause),
            },
            Phase::Reassigning => match reply {
                Reply::Accepted(_) => {
                    self.phase = Phase::Reactivating(ToggleStep::Opening);
                    Move::Ask(Request::OpenSocket)
                },
                Reply::Rejected(errno) => self.fail(
                    Stage::Reassign,
                    MacchangerError::LinuxError(LinuxMacchangerError::SetMacAddress(errno)),
                ),
            },
            Phase::Reactivating(at) => match change_interface_active(&self.name, true, at, reply) {
                Toggled::Ask(next, request) => {
                    self.phase = Phase::Reactivating(next);
                    Move::Ask(request)
                },
                Toggled::Settled(Ok(status)) => {
                    if status {
                        self.phase = Phase::Finished;
                        Move::Done(Outcome::Changed(self.target))
                    } else {
                        self.fail(Stage::Reactivate, MacchangerError::ConnectionResetError)
                    }
                },
                Toggled::Settled(Err(cause)) => self.fail(Stage::Reactivate, cause),
            },
            Phase::Finished => Move::Done(Outcome::Stray),
        }
    }
}

/// Whether a listed interface bears the name.
pub open spec fn known(interfaces: Seq<InterfaceView>, name: Seq<char>) -> bool {
    exists|i: int| 0 <= i < interfaces.len() && (#[trigger] interfaces[i]).name == name
}

/// The first interface of the list that bears the name.
pub fn find_interface(interfaces: &Vec<LinuxInterface>, name: &String) -> (found: Option<usize>)
    ensures
        found is Some == known(interface_views(interfaces@), name@),
        found matches Some(i) ==> i < interfaces.len() && interfaces@[i as int].name@ == name@
            && forall|j: int| 0 <= j < i ==> interfaces@[j].name@ != name@,
{
    let mut i: usize = 0;
    while i < interfaces.len()
        invariant
            i <= interfaces.len(),
            forall|j: int| 0 <= j < i ==> interfaces@[j].name@ != name@,
        decreases interfaces.len() - i,
    {
        if interfaces[i].name == *name {
            assert(interface_views(interfaces@)[i as int].name == name@);
            return Some(i);
        }
        i += 1;
    }
    assert forall|j: int| 0 <= j < interfaces.len() implies (#[trigger] interface_views(
        interfaces@,
    )[j]).name != name@ by {
        assert(interface_views(interfaces@)[j] == interfaces@[j]@);
    }
    None
}

/// Whether the named interface can be addressed by a request: the scan
/// of the records succeeds, a listed interface bears the name, and the
/// name fits the name field.
pub open spec fn reachable(interface: Seq<char>, records: Seq<RawAdapterRecord>) -> bool {
    &&& !some_failure(records)
    &&& known(listed(records), interface)
    &&& name_octets(interface).len() <= IF_NAMESIZE
}

/// Why a request for the named interface is refused: the failure of the
/// scan where the scan fails, else `Generic` where no listed interface
/// bears the name, else the name that does not fit.
pub open spec fn refusal(interface: Seq<char>, records: Seq<RawAdapterRecord>, e: MacchangerError)
    -> bool {
    if some_failure(records) {
        e matches MacchangerError::LinuxError(LinuxMacchangerError::AdapterNameLookup(text))
            && exists|at: int|
            first_failure(records, at) && resolution(records[at]) == Resolution::Failed(text@)
    } else if !known(listed(records), interface) {
        e == MacchangerError::Generic
    } else {
        e matches MacchangerError::LinuxError(LinuxMacchangerError::CreateIfreqAddress(why))
            && why@ == NAME_TOO_LONG@
    }
}

/// What `change_mac` returns: a change at its beginning where the
/// interface is reachable, and the refusal where it is not.
pub open spec fn change_begun(
    mac: MacAddress,
    interface: Seq<char>,
    records: Seq<RawAdapterRecord>,
    r: Result<Mutator, MacchangerError>,
) -> bool {
    match r {
        Ok(m) => reachable(interface, records) && m.wf() && m.phase == Phase::Control && m.target
            == mac && m.name@ == padded(name_octets(interface), IF_NAMESIZE as nat),
        Err(e) => !reachable(interface, records) && refusal(interface, records, e),
    }
}

/// Begins the change of the address of `interface` to `mac`, given what
/// the enumerator reported. On success the caller opens a socket, hands
/// the reply to `Mutator::advance`, and goes on until that says `Done`.
///
/// The change is refused before anything is asked of the system where the
/// scan of the records fails (with the failure of the scan), where no
/// listed interface bears the name (`Generic`), and where the name does
/// not fit the name field of a request.
pub fn change_mac(mac: MacAddress, interface: &String, records: &Vec<RawAdapterRecord>) -> (r:
    Result<Mutator, MacchangerError>)
    ensures
        change_begun(mac, interface@, records@, r),
{
    let interfaces = match list_interfaces(records) {
        Err(e) => { return Err(e); },
        Ok(interfaces) => interfaces,
    };
    if find_interface(&interfaces, interface).is_none() {
        return Err(MacchangerError::Generic);
    }
    let request = match IfreqAddress::from(interface.as_str()) {
        Err(e) => { return Err(MacchangerError::LinuxError(e)); },
        Ok(request) => request,
    };
    let address = request.with_address(&mac);
    Ok(Mutator { name: address.name, target: mac, address, phase: Phase::Control })
}

/// What a fresh enumeration would observe of the interface: whether it is
/// up, and the six octets of its address.
pub struct Link {
    pub up: bool,
    pub address: Seq<u8>,
}

/// A change under way against an interface: the machine, its pending
/// move, the interface as an observer would find it, and every request
/// made so far.
pub struct Session {
    pub machine: Mutator,
    pub pending: Move,
    pub link: Link,
    pub asked: Seq<Request>,
}

/// The interface after the system has answered a request: an accepted
/// flags request sets or clears its up state, an accepted address request
/// replaces its address, and nothing else touches it.
pub open spec fn obeyed(link: Link, request: Request, reply: Reply) -> Link {
    match (request, reply) {
        (Request::SetFlags(flags), Reply::Accepted(_)) => Link { up: up(flags.value), ..link },
        (Request::SetAddress(address), Reply::Accepted(_)) => Link {
            address: address.data@.take(6),
            ..link
        },
        _ => link,
    }
}

/// The session as `change_mac` leaves it: the first socket is asked for.
pub open spec fn begun(machine: Mutator, link: Link) -> Session {
    Session {
        machine,
        pending: Move::Ask(Request::OpenSocket),
        link,
        asked: seq![Request::OpenSocket],
    }
}

/// One round: the system answers the pending request and the machine
/// moves. A session that has ended stays as it is.
pub open spec fn exchange(s: Session, reply: Reply) -> Session {
    match s.pending {
        Move::Done(_) => s,
        Move::Ask(request) => {
            let (machine, pending) = step(s.machine, reply);
            Session {
                machine,
                pending,
                link: obeyed(s.link, request, reply),
                asked: match pending {
                    Move::Ask(next) => s.asked.push(next),
                    Move::Done(_) => s.asked,
                },
            }
        },
    }
}

/// The session after the system has given these replies in turn.
pub open spec fn exchanges(s: Session, replies: Seq<Reply>) -> Session
    decreases replies.len(),
{
    if replies.len() == 0 {
        s
    } else {
        exchanges(exchange(s, replies.first()), replies.skip(1))
    }
}

/// Whether no address request is among the requests.
pub open spec fn never_reassigned(asked: Seq<Request>) -> bool {
    forall|i: int| 0 <= i < asked.len() ==> !(#[trigger] asked[i] is SetAddress)
}

/// Whether the session ended with a failure of the deactivate stage.
pub open spec fn deactivation_failed(s: Session) -> bool {
    s.pending matches Move::Done(Outcome::Failed(e)) && e.stage == Stage::Deactivate
}

spec fn settles(s: Session) -> bool {
    let target = s.machine.target@.take(6);
    &&& s.machine.wf()
    &&& match s.pending {
        Move::Done(Outcome::Changed(mac)) => mac == s.machine.target && s.link.up && s.link.address
            == target,
        Move::Done(_) => true,
        Move::Ask(request) => match s.machine.phase {
            Phase::Reassigning => request == Request::SetAddress(s.machine.address),
            Phase::Reactivating(ToggleStep::Opening) => s.link.address == target && request
                == Request::OpenSocket,
            Phase::Reactivating(ToggleStep::Reading) => s.link.address == target
                && request is GetFlags,
            Phase::Reactivating(ToggleStep::Writing) => s.link.address == target && (
            request matches Request::SetFlags(flags) && up(flags.value)),
            Phase::Finished => false,
            _ => true,
        },
    }
}

proof fn settles_through(s: Session, replies: Seq<Reply>)
    requires
        settles(s),
    ensures
        settles(exchanges(s, replies)),
    decreases replies.len(),
{
    if replies.len() > 0 {
        let reply = replies.first();
        let next = exchange(s, reply);
        assert(settles(next)) by {
            if let Move::Ask(request) = s.pending {
                assert(s.machine.address.data@.take(6) =~= s.machine.target@.take(6));
                if let Reply::Accepted(flags) = reply {
                    assert((flags | 1u16) & 1u16 == 1) by (bit_vector);
                }
            }
        }
        settles_through(next, replies.skip(1));
    }
}

spec fn guarded(s: Session, address: Seq<u8>) -> bool {
    let untouched = never_reassigned(s.asked) && s.link.address == address;
    match s.pending {
        Move::Done(_) => deactivation_failed(s) ==> untouched,
        Move::Ask(request) => match s.machine.phase {
            Phase::Control | Phase::Deactivating(_) => untouched && !(request is SetAddress),
            Phase::Finished => false,
            _ => true,
        },
    }
}

proof fn guarded_through(s: Session, address: Seq<u8>, replies: Seq<Reply>)
    requires
        guarded(s, address),
    ensures
        guarded(exchanges(s, replies), address),
    decreases replies.len(),
{
    if replies.len() > 0 {
        let next = exchange(s, replies.first());
        assert(guarded(next, address));
        guarded_through(next, address, replies.skip(1));
    }
}

/// A change that succeeds leaves the interface up and carrying the
/// requested address: whatever the system answered along the way, if the
/// session ends in `Changed`, then the address reported is the target, the
/// last flags that the system accepted had the up flag set, and the
/// address that it accepted is the target's.
pub proof fn successful_change_leaves_interface_up(
    machine: Mutator,
    link: Link,
    replies: Seq<Reply>,
)
    requires
        machine.wf(),
        machine.phase == Phase::Control,
        exchanges(begun(machine, link), replies).pending is Done,
        exchanges(begun(machine, link), replies).pending->Done_0 is Changed,
    ensures
        exchanges(begun(machine, link), replies).pending == Move::Done(
            Outcome::Changed(machine.target),
        ),
        exchanges(begun(machine, link), replies).link.up,
        exchanges(begun(machine, link), replies).link.address == machine.target@.take(6),
        machine.target is V6 ==> exchanges(begun(machine, link), replies).link.address
            == machine.target@,
{
    settles_through(begun(machine, link), replies);
    step_keeps_the_request(begun(machine, link), replies);
    assert(machine.target is V6 ==> machine.target@.take(6) == machine.target@);
}

proof fn step_keeps_the_request(s: Session, replies: Seq<Reply>)
    ensures
        exchanges(s, replies).machine.target == s.machine.target,
        exchanges(s, replies).machine.name == s.machine.name,
        exchanges(s, replies).machine.address == s.machine.address,
    decreases replies.len(),
{
    if replies.len() > 0 {
        step_keeps_the_request(exchange(s, replies.first()), replies.skip(1));
    }
}

/// The address request is made only in answer to flags that say the
/// interface is down, at the end of the deactivate stage; and a change
/// that ends while the interface is being taken down reports the stage
/// `Deactivate`.
pub proof fn reassignment_follows_deactivation(m: Mutator, reply: Reply)
    ensures
        step(m, reply).1 matches Move::Ask(Request::SetAddress(_)) ==> m.phase
            == Phase::Deactivating(ToggleStep::Writing) && (reply matches Reply::Accepted(flags)
            && !up(flags)),
        (m.phase is Control || m.phase is Deactivating) && step(m, reply).1 is Done ==> (step(
            m,
            reply,
        ).1 matches Move::Done(Outcome::Failed(e)) && e.stage == Stage::Deactivate),
        step(m, reply).1 is Done ==> step(m, reply).0.phase == Phase::Finished,
{
}

/// A change whose deactivate stage fails never reaches the reassign
/// stage: whatever the system answered, if the session ends with a failure
/// of the stage `Deactivate`, then no address request was ever made and
/// the interface still carries the address it had.
pub proof fn failed_deactivation_never_reassigns(
    machine: Mutator,
    link: Link,
    replies: Seq<Reply>,
)
    requires
        machine.phase == Phase::Control,
        deactivation_failed(exchanges(begun(machine, link), replies)),
    ensures
        never_reassigned(exchanges(begun(machine, link), replies).asked),
        exchanges(begun(machine, link), replies).link.address == link.address,
{
    guarded_through(begun(machine, link), link.address, replies);
}

} // verus!
