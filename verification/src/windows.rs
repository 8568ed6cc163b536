//! The platform whose adapters are configured through a registry: listing
//! the adapters, finding an adapter's configuration key, storing the new
//! address there and toggling the adapter's connection.

use vstd::prelude::*;
use crate::error::{MacchangerError, MutationError, Stage};
use crate::mac::{all_zero, hex_run, parsed_address, zero_octets, MacAddress};
use crate::mutator::Outcome;

verus! {

/// The status with which a system call reports success.
pub const ERROR_SUCCESS: u32 = 0;

/// The status with which the adapter list reports a buffer that is too
/// small.
pub const ERROR_BUFFER_OVERFLOW: u32 = 111;

/// The result with which the component runtime reports that it is ready.
pub const S_OK: i32 = 0;

/// The result with which it reports that it was ready before.
pub const S_FALSE: i32 = 1;

/// Why a failed scan of the configuration subtree is reported.
pub const SCAN_FAILED: &'static str = "Failed to close Registry keys";

/// Why a configuration subtree that cannot be opened is reported.
pub const CLASS_UNAVAILABLE: &'static str = "Failed to find necessary information in Registry";

/// What the enumerator reports of one adapter. A name is `None` where the
/// system's text could not be converted.
#[derive(Clone, Debug, PartialEq, Eq)]
pub struct RawWindowsRecord {
    /// The operational name of the interface.
    pub friendly_name: Option<String>,
    /// The descriptive name of the adapter.
    pub description: Option<String>,
    /// The instance identifier of the adapter.
    pub adapter_name: Option<String>,
    /// The address field, of which `physical_address_length` octets count.
    pub physical_address: [u8; 8],
    pub physical_address_length: u32,
}

/// A resolved adapter.
#[derive(Clone, Debug, PartialEq, Eq)]
pub struct WindowsAdapter {
    pub name: String,
    pub description: String,
    pub mac_address: MacAddress,
    pub instance_id: String,
}

/// A `WindowsAdapter` as a mathematical value.
pub struct WindowsAdapterView {
    pub name: Seq<char>,
    pub description: Seq<char>,
    pub mac_address: Seq<u8>,
    pub instance_id: Seq<char>,
}

impl View for WindowsAdapter {
    type V = WindowsAdapterView;

    open spec fn view(&self) -> WindowsAdapterView {
        WindowsAdapterView {
            name: self.name@,
            description: self.description@,
            mac_address: self.mac_address@,
            instance_id: self.instance_id@,
        }
    }
}

/// What one record comes to.
pub enum Entry {
    /// The record has no address of six octets, or an all-zero one.
    Skipped,
    /// The record names an adapter.
    Listed(WindowsAdapterView),
    /// One of the record's names is no text.
    Broken,
}

/// A record counts where it has at least six octets of address that are
/// not all zero; its adapter carries the first six. A record that counts
/// and lacks one of its names breaks the scan.
pub open spec fn entry(record: RawWindowsRecord) -> Entry {
    if record.physical_address_length < 6 || all_zero(record.physical_address@.take(6)) {
        Entry::Skipped
    } else {
        match (record.friendly_name, record.description, record.adapter_name) {
            (Some(name), Some(description), Some(instance_id)) => Entry::Listed(
                WindowsAdapterView {
                    name: name@,
                    description: description@,
                    mac_address: record.physical_address@.take(6),
                    instance_id: instance_id@,
                },
            ),
            _ => Entry::Broken,
        }
    }
}

/// The adapters that a scan of `records` lists, in the order of the
/// records.
pub open spec fn listed(records: Seq<RawWindowsRecord>) -> Seq<WindowsAdapterView>
    decreases records.len(),
{
    if records.len() == 0 {
        Seq::empty()
    } else {
        let before = listed(records.drop_last());
        match entry(records.last()) {
            Entry::Listed(adapter) => before.push(adapter),
            _ => before,
        }
    }
}

/// Whether some record breaks the scan.
pub open spec fn broken(records: Seq<RawWindowsRecord>) -> bool {
    exists|at: int| 0 <= at < records.len() && #[trigger] entry(records[at]) is Broken
}

/// The views of a list of adapters.
pub open spec fn adapter_views(adapters: Seq<WindowsAdapter>) -> Seq<WindowsAdapterView> {
    adapters.map_values(|a: WindowsAdapter| a@)
}

/// Resolves one record.
pub fn resolve(record: &RawWindowsRecord) -> (r: Result<Option<WindowsAdapter>, MacchangerError>)
    ensures
        match entry(*record) {
            Entry::Skipped => r matches Ok(found) && found is None,
            Entry::Listed(adapter) => r matches Ok(Some(found)) && found@ == adapter,
            Entry::Broken => r == Err::<Option<WindowsAdapter>, MacchangerError>(
                MacchangerError::AdapterError,
            ),
        },
{
    if record.physical_address_length < 6 {
        return Ok(None);
    }
    let mut octets = [0u8; 6];
    let mut i: usize = 0;
    while i < 6
        invariant
            i <= 6,
            forall|j: int| 0 <= j < i ==> octets@[j] == record.physical_address@[j],
        decreases 6 - i,
    {
        octets[i] = record.physical_address[i];
        i += 1;
    }
    assert(octets@ =~= record.physical_address@.take(6));
    if zero_octets(octets.as_slice()) {
        return Ok(None);
    }
    match (&record.friendly_name, &record.description, &record.adapter_name) {
        (Some(name), Some(description), Some(instance_id)) => Ok(
            Some(
                WindowsAdapter {
                    name: name.clone(),
                    description: description.clone(),
                    mac_address: MacAddress::V6(octets),
                    instance_id: instance_id.clone(),
                },
            ),
        ),
        _ => Err(MacchangerError::AdapterError),
    }
}

/// Resolves the enumerated records into the list of adapters. A record
/// without an address is passed over; the first record that cannot be
/// read ends the scan with `AdapterError`, and nothing is listed.
pub fn list_adapters(records: &Vec<RawWindowsRecord>) -> (r: Result<
    Vec<WindowsAdapter>,
    MacchangerError,
>)
    ensures
        r is Err == broken(records@),
        r matches Err(e) ==> e == MacchangerError::AdapterError,
        r matches Ok(adapters) ==> adapter_views(adapters@) == listed(records@),
{
    let mut adapters: Vec<WindowsAdapter> = Vec::new();
    let mut i: usize = 0;
    while i < records.len()
        invariant
            i <= records.len(),
            adapter_views(adapters@) == listed(records@.take(i as int)),
            forall|j: int| 0 <= j < i ==> !(#[trigger] entry(records@[j]) is Broken),
        decreases records.len() - i,
    {
        let ghost next = records@.take(i + 1);
        assert(next.drop_last() == records@.take(i as int));
        assert(next.last() == records@[i as int]);
        match resolve(&records[i]) {
            Err(e) => {
                assert(entry(records@[i as int]) is Broken);
                return Err(e);
            },
            Ok(None) => {},
            Ok(Some(adapter)) => {
                let ghost before = adapters@;
                adapters.push(adapter);
                assert(adapter_views(adapters@) == adapter_views(before).push(adapter@));
            },
        }
        i += 1;
    }
    assert(records@.take(records.len() as int) == records@);
    Ok(adapters)
}

/// Resolves the enumerated records into the list of interfaces. On this
/// platform an interface and its adapter are one record, so the list is
/// that of `list_adapters`.
pub fn list_interfaces(records: &Vec<RawWindowsRecord>) -> (r: Result<
    Vec<WindowsAdapter>,
    MacchangerError,
>)
    ensures
        r is Err == broken(records@),
        r matches Err(e) ==> e == MacchangerError::AdapterError,
        r matches Ok(adapters) ==> adapter_views(adapters@) == listed(records@),
{
    list_adapters(records)
}

/// A record without an address of six octets, or with an all-zero one, is
/// excluded: the listing is what it would be without the record.
pub proof fn unaddressed_record_is_excluded(records: Seq<RawWindowsRecord>, at: int)
    requires
        0 <= at < records.len(),
        records[at].physical_address_length < 6 || all_zero(
            records[at].physical_address@.take(6),
        ),
    ensures
        entry(records[at]) is Skipped,
        listed(records) == listed(records.remove(at)),
    decreases records.len(),
{
    if at == records.len() - 1 {
        assert(records.remove(at) == records.drop_last());
    } else {
        unaddressed_record_is_excluded(records.drop_last(), at);
        assert(records.remove(at).drop_last() == records.drop_last().remove(at));
        assert(records.remove(at).last() == records.last());
    }
}

/// Whether a listed adapter bears the interface name.
pub open spec fn known(adapters: Seq<WindowsAdapterView>, name: Seq<char>) -> bool {
    exists|i: int| 0 <= i < adapters.len() && (#[trigger] adapters[i]).name == name
}

/// Whether `at` is the first listed adapter that bears the name.
pub open spec fn first_named(adapters: Seq<WindowsAdapterView>, name: Seq<char>, at: int) -> bool {
    &&& 0 <= at < adapters.len()
    &&& adapters[at].name == name
    &&& forall|j: int| 0 <= j < at ==> (#[trigger] adapters[j]).name != name
}

/// What `get_adapter` returns: the first listed adapter of the name; the
/// failure of the scan where the scan fails, and `Generic` where no listed
/// adapter bears the name.
pub open spec fn adapter_found(
    interface: Seq<char>,
    records: Seq<RawWindowsRecord>,
    r: Result<WindowsAdapterView, MacchangerError>,
) -> bool {
    match r {
        Ok(adapter) => !broken(records) && exists|at: int|
            first_named(listed(records), interface, at) && listed(records)[at] == adapter,
        Err(e) => if broken(records) {
            e == MacchangerError::AdapterError
        } else {
            !known(listed(records), interface) && e == MacchangerError::Generic
        },
    }
}

/// The adapter behind the interface `interface`: the first listed adapter
/// of that name. Fails as the scan fails, and with `Generic` where no
/// listed adapter bears the name.
pub fn get_adapter(interface: &String, records: &Vec<RawWindowsRecord>) -> (r: Result<
    WindowsAdapter,
    MacchangerError,
>)
    ensures
        adapter_found(
            interface@,
            records@,
            match r {
                Ok(adapter) => Ok(adapter@),
                Err(e) => Err(e),
            },
        ),
{
    let adapters = match list_adapters(records) {
        Err(e) => { return Err(e); },
        Ok(adapters) => adapters,
    };
    let mut i: usize = 0;
    while i < adapters.len()
        invariant
            i <= adapters.len(),
            !broken(records@),
            adapter_views(adapters@) == listed(records@),
            forall|j: int| 0 <= j < i ==> (#[trigger] listed(records@)[j]).name != interface@,
        decreases adapters.len() - i,
    {
        assert(adapter_views(adapters@)[i as int] == adapters@[i as int]@);
        if adapters[i].name == *interface {
            let found = WindowsAdapter {
                name: adapters[i].name.clone(),
                description: adapters[i].description.clone(),
                mac_address: adapters[i].mac_address,
                instance_id: adapters[i].instance_id.clone(),
            };
            assert(first_named(listed(records@), interface@, i as int));
            return Ok(found);
        }
        i += 1;
    }
    Err(MacchangerError::Generic)
}

/// What to do with one connection of the connection manager.
#[derive(Clone, Copy, Debug, PartialEq, Eq, Structural)]
pub enum ConnectionAction {
    Connect,
    Disconnect,
    /// The connection belongs to another device.
    Leave,
}

/// The action for a connection of the device `device_name` when the
/// adapter is to be connected (`status`) or disconnected.
pub open spec fn action_for(device_name: Seq<char>, description: Seq<char>, status: bool)
    -> ConnectionAction {
    if device_name != description {
        ConnectionAction::Leave
    } else if status {
        ConnectionAction::Connect
    } else {
        ConnectionAction::Disconnect
    }
}

/// Decides what to do with one connection: it is touched only where its
/// device is the adapter, by its descriptive name.
pub fn change_connection_status(device_name: &String, adapter: &WindowsAdapter, status: bool) -> (a:
    ConnectionAction)
    ensures
        a == action_for(device_name@, adapter.description@, status),
{
    if *device_name == adapter.description {
        if status {
            ConnectionAction::Connect
        } else {
            ConnectionAction::Disconnect
        }
    } else {
        ConnectionAction::Leave
    }
}

/// Whether the component runtime is usable after its initialisation
/// returned `result`.
pub open spec fn runtime_ready(result: i32) -> bool {
    result == S_OK || result == S_FALSE
}

/// Plans the toggling of an adapter's connection: given how the runtime's
/// initialisation ended and the device names of the enumerated
/// connections, one action for each connection, in order. The plan is
/// carried out step by step with `next_connection`; nothing is retried.
pub fn change_adapter_connection_status(
    initialised: i32,
    device_names: &Vec<String>,
    adapter: &WindowsAdapter,
    status: bool,
) -> (r: Result<Vec<ConnectionAction>, MacchangerError>)
    ensures
        r is Ok == runtime_ready(initialised),
        r matches Err(e) ==> e == MacchangerError::ConnectionResetError,
        r matches Ok(plan) ==> plan@.len() == device_names@.len() && forall|i: int|
            0 <= i < plan@.len() ==> #[trigger] plan@[i] == action_for(
                device_names@[i]@,
                adapter.description@,
                status,
            ),
{
    if initialised != S_OK && initialised != S_FALSE {
        return Err(MacchangerError::ConnectionResetError);
    }
    let mut plan: Vec<ConnectionAction> = Vec::new();
    let mut i: usize = 0;
    while i < device_names.len()
        invariant
            i <= device_names.len(),
            plan@.len() == i,
            forall|j: int|
                0 <= j < i ==> #[trigger] plan@[j] == action_for(
                    device_names@[j]@,
                    adapter.description@,
                    status,
                ),
        decreases device_names.len() - i,
    {
        plan.push(change_connection_status(&device_names[i], adapter, status));
        i += 1;
    }
    Ok(plan)
}

/// The next move of a toggle: an action to perform on the connection
/// with this index, or the end.
#[derive(Debug, PartialEq, Eq)]
pub enum ToggleMove {
    Perform(usize, ConnectionAction),
    Finished(Result<(), MacchangerError>),
}

/// The first connection at or after `from` that the plan touches; the
/// length of the plan where it touches none.
pub open spec fn next_touched(plan: Seq<ConnectionAction>, from: int) -> int
    decreases plan.len() - from,
{
    if from < 0 || from >= plan.len() {
        plan.len() as int
    } else if plan[from] is Leave {
        next_touched(plan, from + 1)
    } else {
        from
    }
}

/// One step of a toggle. `done` connections have been dealt with, and
/// `accepted` says whether the system accepted the action performed last.
/// A rejected action ends the toggle with `ConnectionResetError`; after an
/// accepted one the next connection of the adapter is acted on, and the
/// toggle ends well where none is left.
pub open spec fn toggle_step(plan: Seq<ConnectionAction>, done: usize, accepted: bool)
    -> ToggleMove {
    if !accepted {
        ToggleMove::Finished(Err(MacchangerError::ConnectionResetError))
    } else if next_touched(plan, done as int) < plan.len() {
        ToggleMove::Perform(
            next_touched(plan, done as int) as usize,
            plan[next_touched(plan, done as int)],
        )
    } else {
        ToggleMove::Finished(Ok(()))
    }
}

proof fn next_touched_is_touched(plan: Seq<ConnectionAction>, from: int)
    requires
        0 <= from,
    ensures
        from <= next_touched(plan, from) || next_touched(plan, from) == plan.len(),
        next_touched(plan, from) <= plan.len(),
        next_touched(plan, from) < plan.len() ==> !(plan[next_touched(plan, from)] is Leave),
        forall|i: int| from <= i < next_touched(plan, from) ==> #[trigger] plan[i] is Leave,
    decreases plan.len() - from,
{
    if from < plan.len() && plan[from] is Leave {
        next_touched_is_touched(plan, from + 1);
    }
}

/// Says what to do next in a toggle that follows `plan`. The caller
/// begins with `done` at zero and `accepted` true, performs each action
/// it is handed on the connection of that index, and comes back with the
/// index plus one and whether the system accepted the action.
pub fn next_connection(plan: &Vec<ConnectionAction>, done: usize, accepted: bool) -> (mv:
    ToggleMove)
    ensures
        mv == toggle_step(plan@, done, accepted),
{
    if !accepted {
        return ToggleMove::Finished(Err(MacchangerError::ConnectionResetError));
    }
    let mut i: usize = done;
    while i < plan.len()
        invariant
            accepted,
            done <= i,
            next_touched(plan@, done as int) == next_touched(plan@, i as int),
        decreases plan.len() - i,
    {
        match plan[i] {
            ConnectionAction::Leave => {},
            ConnectionAction::Connect => {
                return ToggleMove::Perform(i, ConnectionAction::Connect);
            },
            ConnectionAction::Disconnect => {
                return ToggleMove::Perform(i, ConnectionAction::Disconnect);
            },
        }
        i += 1;
    }
    ToggleMove::Finished(Ok(()))
}

/// A toggle from its beginning to its end: the connections acted on, in
/// the order in which they were acted on, and how the toggle ended.
/// `accepts` says of each connection whether the system accepts an action
/// on it.
pub open spec fn toggled(
    plan: Seq<ConnectionAction>,
    accepts: Seq<bool>,
    done: usize,
    accepted: bool,
) -> (Seq<int>, Result<(), MacchangerError>)
    decreases plan.len() - done,
{
    match toggle_step(plan, done, accepted) {
        ToggleMove::Finished(result) => (Seq::empty(), result),
        ToggleMove::Perform(at, _) => if done <= at < plan.len() && at < usize::MAX {
            let (later, result) = toggled(plan, accepts, (at + 1) as usize, accepts[at as int]);
            (seq![at as int] + later, result)
        } else {
            (Seq::empty(), Ok(()))
        },
    }
}

/// Whether the toggle acted on the connection `at`.
pub open spec fn acted_on(acted: Seq<int>, at: int) -> bool {
    exists|k: int| 0 <= k < acted.len() && #[trigger] acted[k] == at
}

/// An action is performed only on the connections of the adapter, once
/// each and in their order; the first action that the system rejects ends
/// the toggle with `ConnectionResetError`, and no later connection is
/// acted on; and a toggle that ends well has acted on every connection of
/// the adapter, each action accepted.
pub proof fn toggle_stops_at_the_first_rejection(
    plan: Seq<ConnectionAction>,
    accepts: Seq<bool>,
    done: usize,
)
    requires
        accepts.len() == plan.len(),
        plan.len() <= usize::MAX,
    ensures
        ({
            let (acted, result) = toggled(plan, accepts, done, true);
            &&& forall|k: int|
                0 <= k < acted.len() ==> done <= #[trigger] acted[k] < plan.len() && !(
                plan[acted[k]] is Leave)
            &&& forall|k: int, l: int| 0 <= k < l < acted.len() ==> acted[k] < acted[l]
            &&& forall|k: int| 0 <= k < acted.len() - 1 ==> accepts[#[trigger] acted[k]]
            &&& forall|i: int|
                done <= i < plan.len() && !(#[trigger] plan[i] is Leave) && (result is Ok || i
                    <= acted.last()) ==> acted_on(acted, i)
            &&& match result {
                Ok(_) => forall|k: int| 0 <= k < acted.len() ==> accepts[#[trigger] acted[k]],
                Err(e) => e == MacchangerError::ConnectionResetError && acted.len() > 0
                    && !accepts[acted.last()],
            }
        }),
    decreases plan.len() - done,
{
    next_touched_is_touched(plan, done as int);
    let at = next_touched(plan, done as int);
    let (acted, result) = toggled(plan, accepts, done, true);
    if at < plan.len() {
        let next = (at + 1) as usize;
        if accepts[at] {
            toggle_stops_at_the_first_rejection(plan, accepts, next);
            let (later, end) = toggled(plan, accepts, next, true);
            assert(acted == seq![at] + later);
            assert(result == end);
            assert forall|i: int|
                done <= i < plan.len() && !(#[trigger] plan[i] is Leave) && (result is Ok || i
                    <= acted.last()) implies acted_on(acted, i) by {
                if i == at {
                    assert(acted[0] == at);
                } else {
                    assert(later.len() > 0 ==> acted.last() == later.last());
                    if later.len() == 0 {
                        assert(result is Ok);
                    }
                    assert(acted_on(later, i));
                    let k = choose|k: int| 0 <= k < later.len() && later[k] == i;
                    assert(acted[k + 1] == i);
                }
            }
            assert forall|k: int, l: int| 0 <= k < l < acted.len() implies acted[k] < acted[l] by {
                if k > 0 {
                    assert(acted[k] == later[k - 1] && acted[l] == later[l - 1]);
                } else {
                    assert(acted[l] == later[l - 1]);
                }
            }
            assert forall|k: int| 0 <= k < acted.len() implies done <= #[trigger] acted[k]
                < plan.len() && !(plan[acted[k]] is Leave) by {
                if k > 0 {
                    assert(acted[k] == later[k - 1]);
                }
            }
            assert forall|k: int| 0 <= k < acted.len() - 1 implies accepts[#[trigger] acted[k]] by {
                if k > 0 {
                    assert(acted[k] == later[k - 1]);
                }
            }
            if result is Ok {
                assert forall|k: int| 0 <= k < acted.len() implies accepts[#[trigger] acted[k]] by {
                    if k > 0 {
                        assert(acted[k] == later[k - 1]);
                    }
                }
            } else {
                assert(acted.last() == later.last());
            }
        } else {
            assert(toggled(plan, accepts, next, false) == (
                Seq::<int>::empty(),
                Err::<(), MacchangerError>(MacchangerError::ConnectionResetError),
            ));
            assert(acted =~= seq![at]);
            assert(acted[0] == at);
        }
    } else {
        assert(acted =~= Seq::<int>::empty());
    }
}

/// What the configuration store answered to the query for a value.
#[derive(Clone, Debug, PartialEq, Eq)]
pub enum StoredValue {
    /// The store holds no such value, or refused; the system's message.
    Absent(String),
    /// The value is no text; why.
    Garbled(String),
    /// The value, without its terminating zero.
    Text(String),
}

/// The address that a stored text holds, as `MacAddress::parse` reads it.
pub fn stored_address(parsed: Option<MacAddress>) -> (r: Result<MacAddress, MacchangerError>)
    ensures
        match parsed {
            Some(mac) => r == Ok::<MacAddress, MacchangerError>(mac),
            None => r == Err::<MacAddress, MacchangerError>(
                MacchangerError::StringConversionError,
            ),
        },
{
    match parsed {
        Some(mac) => Ok(mac),
        None => Err(MacchangerError::StringConversionError),
    }
}

/// What `get_hardware_mac` returns for an answer of the store: `Generic`,
/// the not-found failure, where no original address was saved; a registry
/// failure with its reason where the value is no text; the address that
/// the text holds, or a conversion failure where it holds none.
pub open spec fn stored(answer: StoredValue, r: Result<MacAddress, MacchangerError>) -> bool {
    match answer {
        StoredValue::Absent(_) => r == Err::<MacAddress, MacchangerError>(
            MacchangerError::Generic,
        ),
        StoredValue::Garbled(why) => r matches Err(MacchangerError::RegistryError(text)) && text@
            == why@,
        StoredValue::Text(value) => match parsed_address(value@) {
            Some(octets) => r matches Ok(mac) && mac@ == octets,
            None => r == Err::<MacAddress, MacchangerError>(
                MacchangerError::StringConversionError,
            ),
        },
    }
}

/// Reads the manufacturer-assigned address off the value saved beside the
/// live configuration. A missing value means that the address is not to
/// be had: the failure is `Generic`, as for an unknown interface. A value
/// that is no text is a registry failure with the reason given; a text
/// that is no address is a conversion failure.
pub fn get_hardware_mac(answer: &StoredValue) -> (r: Result<MacAddress, MacchangerError>)
    ensures
        stored(*answer, r),
{
    match answer {
        StoredValue::Absent(_) => Err(MacchangerError::Generic),
        StoredValue::Garbled(why) => Err(MacchangerError::RegistryError(why.clone())),
        StoredValue::Text(value) => stored_address(MacAddress::parse(value.as_str())),
    }
}

/// The size and the alignment of the buffer that holds the adapter list,
/// kept as one value from the allocation to the release.
#[derive(Clone, Copy, Debug, PartialEq, Eq, Structural)]
pub struct BufferLayout {
    pub size: usize,
    pub align: usize,
}

/// Whether a buffer of `size` bytes aligned to `align` can be asked for:
/// the alignment is a power of two, and the size rounded up to it stays
/// within the largest allocation.
pub open spec fn layout_fits(size: u32, align: usize) -> bool {
    &&& align != 0
    &&& align & ((align - 1) as usize) == 0
    &&& size + (align - 1) <= usize::MAX / 2
}

impl BufferLayout {
    /// Binds a size to an alignment, or reports that no such buffer can
    /// be allocated.
    pub fn new(size: u32, align: usize) -> (r: Result<BufferLayout, MacchangerError>)
        ensures
            r is Ok == layout_fits(size, align),
            r matches Ok(layout) ==> layout.size == size && layout.align == align,
            r matches Err(e) ==> e == MacchangerError::AllocError,
    {
        if align == 0 {
            return Err(MacchangerError::AllocError);
        }
        if align & (align - 1) != 0 {
            return Err(MacchangerError::AllocError);
        }
        let limit: usize = usize::MAX / 2;
        if align - 1 > limit || size as usize > limit - (align - 1) {
            return Err(MacchangerError::AllocError);
        }
        Ok(BufferLayout { size: size as usize, align })
    }
}

/// Where the sizing of the adapter list stands.
#[derive(Clone, Copy, Debug, PartialEq, Eq, Structural)]
pub enum Sizing {
    /// The first call, with no buffer, is under way.
    Probing,
    /// The second call, with a buffer of this layout, is under way.
    Filling(BufferLayout),
    Finished,
}

/// What came of a call for the adapter list.
#[derive(Clone, Copy, Debug, PartialEq, Eq, Structural)]
pub enum ListReply {
    /// The call returned this status and this required size.
    Answered { status: u32, needed: u32 },
    /// The buffer could not be allocated.
    OutOfMemory,
}

/// What to do next about the adapter list.
#[derive(Clone, Debug, PartialEq, Eq)]
pub enum SizingMove {
    /// Allocate a buffer of this layout and call again.
    Query(BufferLayout),
    /// The list is complete: in the buffer of this layout, or empty.
    Listed(Option<BufferLayout>),
    /// The listing failed; release the buffer of this layout, if any.
    Failed { error: MacchangerError, release: Option<BufferLayout> },
}

/// The sizing protocol: the first call asks for the required size; only
/// an overflow leads to a second call, with a buffer of exactly that size;
/// any other failure of either call is fatal.
pub open spec fn sizing(state: Sizing, reply: ListReply, align: usize) -> (Sizing, SizingMove) {
    match (state, reply) {
        (Sizing::Probing, ListReply::Answered { status, needed }) => if status == ERROR_SUCCESS {
            (Sizing::Finished, SizingMove::Listed(None))
        } else if status == ERROR_BUFFER_OVERFLOW {
            if layout_fits(needed, align) {
                let layout = BufferLayout { size: needed as usize, align };
                (Sizing::Filling(layout), SizingMove::Query(layout))
            } else {
                (
                    Sizing::Finished,
                    SizingMove::Failed { error: MacchangerError::AllocError, release: None },
                )
            }
        } else {
            (
                Sizing::Finished,
                SizingMove::Failed { error: MacchangerError::AdapterError, release: None },
            )
        },
        (Sizing::Filling(layout), ListReply::Answered { status, needed }) => if status
            == ERROR_SUCCESS {
            (Sizing::Finished, SizingMove::Listed(Some(layout)))
        } else {
            (
                Sizing::Finished,
                SizingMove::Failed { error: MacchangerError::AdapterError, release: Some(layout) },
            )
        },
        (_, ListReply::OutOfMemory) => (
            Sizing::Finished,
            SizingMove::Failed { error: MacchangerError::AllocError, release: None },
        ),
        (Sizing::Finished, _) => (
            Sizing::Finished,
            SizingMove::Failed { error: MacchangerError::AdapterError, release: None },
        ),
    }
}

/// One step of obtaining the raw adapter list, for a list whose elements
/// are aligned to `align`.
pub fn get_raw_adapters(state: Sizing, reply: ListReply, align: usize) -> (r: (Sizing, SizingMove))
    ensures
        r == sizing(state, reply, align),
{
    match reply {
        ListReply::OutOfMemory => (
            Sizing::Finished,
            SizingMove::Failed { error: MacchangerError::AllocError, release: None },
        ),
        ListReply::Answered { status, needed } => match state {
            Sizing::Probing => {
                if status == ERROR_SUCCESS {
                    (Sizing::Finished, SizingMove::Listed(None))
                } else if status == ERROR_BUFFER_OVERFLOW {
                    match BufferLayout::new(needed, align) {
                        Ok(layout) => (Sizing::Filling(layout), SizingMove::Query(layout)),
                        Err(error) => (
                            Sizing::Finished,
                            SizingMove::Failed { error, release: None },
                        ),
                    }
                } else {
                    (
                        Sizing::Finished,
                        SizingMove::Failed { error: MacchangerError::AdapterError, release: None },
                    )
                }
            },
            Sizing::Filling(layout) => {
                if status == ERROR_SUCCESS {
                    (Sizing::Finished, SizingMove::Listed(Some(layout)))
                } else {
                    (
                        Sizing::Finished,
                        SizingMove::Failed {
                            error: MacchangerError::AdapterError,
                            release: Some(layout),
                        },
                    )
                }
            },
            Sizing::Finished => (
                Sizing::Finished,
                SizingMove::Failed { error: MacchangerError::AdapterError, release: None },
            ),
        },
    }
}

/// A buffer is released with the layout it was allocated with: whenever
/// the second call is under way, what is listed or released afterwards is
/// the layout of that call.
pub proof fn buffer_is_released_as_allocated(layout: BufferLayout, reply: ListReply, align: usize)
    ensures
        match sizing(Sizing::Filling(layout), reply, align).1 {
            SizingMove::Listed(held) => held == Some(layout),
            SizingMove::Failed { error, release } => reply is Answered ==> release == Some(layout),
            SizingMove::Query(_) => false,
        },
{
}

/// Where the scan of the configuration subtree stands.
#[derive(Clone, Copy, Debug, PartialEq, Eq, Structural)]
pub enum ScanStep {
    /// Opening the subtree of the network adapter class.
    Opening,
    /// Asking for the name of the subkey with this index.
    Enumerating(u32),
    /// Opening the subkey with this index.
    OpeningSubkey(u32),
    /// Asking the subkey with this index for its instance identifier.
    Querying(u32),
    Finished,
}

/// What the configuration store answered.
#[derive(Clone, Debug, PartialEq, Eq)]
pub enum RegistryReply {
    /// The call succeeded and returned no value of interest.
    Succeeded,
    /// The call failed with this status.
    Refused(u32),
    /// The value asked for, without its terminating zero.
    Value(String),
    /// The value asked for is no text; why.
    Garbled(String),
}

/// What to do next in the scan.
#[derive(Clone, Debug, PartialEq, Eq)]
pub enum ScanMove {
    /// Ask for the name of the subkey with this index.
    Enumerate(u32),
    /// Open the subkey with this index.
    OpenSubkey(u32),
    /// Ask the open subkey for its instance identifier.
    QueryInstanceId(u32),
    /// Close the open subkey, then ask for the name of the next.
    Skip(u32),
    /// The open subkey is the adapter's: close the subtree and keep it.
    Found(u32),
    /// The scan failed; close what the flags say is open.
    Failed { error: MacchangerError, close_class: bool, close_subkey: bool },
}

/// A `ScanMove` as a mathematical value.
pub enum ScanMoveView {
    Enumerate(u32),
    OpenSubkey(u32),
    QueryInstanceId(u32),
    Skip(u32),
    Found(u32),
    Failed { reason: Seq<char>, close_class: bool, close_subkey: bool },
}

impl View for ScanMove {
    type V = ScanMoveView;

    open spec fn view(&self) -> ScanMoveView {
        match *self {
            ScanMove::Enumerate(i) => ScanMoveView::Enumerate(i),
            ScanMove::OpenSubkey(i) => ScanMoveView::OpenSubkey(i),
            ScanMove::QueryInstanceId(i) => ScanMoveView::QueryInstanceId(i),
            ScanMove::Skip(i) => ScanMoveView::Skip(i),
            ScanMove::Found(i) => ScanMoveView::Found(i),
            ScanMove::Failed { error, close_class, close_subkey } => ScanMoveView::Failed {
                reason: match error {
                    MacchangerError::RegistryError(why) => why@,
                    _ => Seq::empty(),
                },
                close_class,
                close_subkey,
            },
        }
    }
}

/// The end of a scan that failed for the given reason.
pub open spec fn scan_failed(reason: Seq<char>, close_class: bool, close_subkey: bool) -> (
    ScanStep,
    ScanMoveView,
) {
    (ScanStep::Finished, ScanMoveView::Failed { reason, close_class, close_subkey })
}

/// The scan for the configuration key of the adapter with the instance
/// identifier `instance_id`: the subkeys are visited in the order of their
/// index; the first whose identifier is the adapter's is the key. Any
/// refusal ends the scan, the end of the enumeration included, and every
/// end closes the keys that are open.
pub open spec fn scan(instance_id: Seq<char>, at: ScanStep, reply: RegistryReply) -> (
    ScanStep,
    ScanMoveView,
) {
    match at {
        ScanStep::Opening => match reply {
            RegistryReply::Succeeded => (ScanStep::Enumerating(0), ScanMoveView::Enumerate(0)),
            _ => scan_failed(CLASS_UNAVAILABLE@, true, false),
        },
        ScanStep::Enumerating(index) => match reply {
            RegistryReply::Succeeded => (
                ScanStep::OpeningSubkey(index),
                ScanMoveView::OpenSubkey(index),
            ),
            _ => scan_failed(SCAN_FAILED@, true, false),
        },
        ScanStep::OpeningSubkey(index) => match reply {
            RegistryReply::Succeeded => (
                ScanStep::Querying(index),
                ScanMoveView::QueryInstanceId(index),
            ),
            _ => scan_failed(SCAN_FAILED@, true, true),
        },
        ScanStep::Querying(index) => match reply {
            RegistryReply::Value(value) => if value@ == instance_id {
                (ScanStep::Finished, ScanMoveView::Found(index))
            } else if index < u32::MAX {
                (ScanStep::Enumerating((index + 1) as u32), ScanMoveView::Skip((index + 1) as u32))
            } else {
                scan_failed(SCAN_FAILED@, true, true)
            },
            RegistryReply::Garbled(why) => scan_failed(why@, true, true),
            _ => scan_failed(SCAN_FAILED@, true, true),
        },
        ScanStep::Finished => scan_failed(SCAN_FAILED@, false, false),
    }
}

fn scan_ends(reason: String, close_class: bool, close_subkey: bool) -> (r: (ScanStep, ScanMove))
    ensures
        (r.0, r.1@) == scan_failed(reason@, close_class, close_subkey),
        r.1 matches ScanMove::Failed { error, .. } && error is RegistryError,
{
    (
        ScanStep::Finished,
        ScanMove::Failed {
            error: MacchangerError::RegistryError(reason),
            close_class,
            close_subkey,
        },
    )
}

/// One step of finding the configuration key of `adapter`.
pub fn get_registry_key(adapter: &WindowsAdapter, at: ScanStep, reply: &RegistryReply) -> (r: (
    ScanStep,
    ScanMove,
))
    ensures
        (r.0, r.1@) == scan(adapter.instance_id@, at, *reply),
        r.1 matches ScanMove::Failed { error, .. } ==> error is RegistryError,
{
    match at {
        ScanStep::Opening => match reply {
            RegistryReply::Succeeded => (ScanStep::Enumerating(0), ScanMove::Enumerate(0)),
            _ => scan_ends(CLASS_UNAVAILABLE.to_owned(), true, false),
        },
        ScanStep::Enumerating(index) => match reply {
            RegistryReply::Succeeded => (ScanStep::OpeningSubkey(index), ScanMove::OpenSubkey(index)),
            _ => scan_ends(SCAN_FAILED.to_owned(), true, false),
        },
        ScanStep::OpeningSubkey(index) => match reply {
            RegistryReply::Succeeded => (
                ScanStep::Querying(index),
                ScanMove::QueryInstanceId(index),
            ),
            _ => scan_ends(SCAN_FAILED.to_owned(), true, true),
        },
        ScanStep::Querying(index) => match reply {
            RegistryReply::Value(value) => {
                if *value == adapter.instance_id {
                    (ScanStep::Finished, ScanMove::Found(index))
                } else if index < u32::MAX {
                    (ScanStep::Enumerating(index + 1), ScanMove::Skip(index + 1))
                } else {
                    scan_ends(SCAN_FAILED.to_owned(), true, true)
                }
            },
            RegistryReply::Garbled(why) => scan_ends(why.clone(), true, true),
            _ => scan_ends(SCAN_FAILED.to_owned(), true, true),
        },
        ScanStep::Finished => scan_ends(SCAN_FAILED.to_owned(), false, false),
    }
}

/// A key is found only where the identifier stored in it is the
/// adapter's, and every end of a scan that has opened the subtree closes
/// it.
pub proof fn found_key_is_the_adapters(instance_id: Seq<char>, at: ScanStep, reply: RegistryReply)
    ensures
        scan(instance_id, at, reply).1 is Found ==> at is Querying && (
        reply matches RegistryReply::Value(value) && value@ == instance_id),
        !(at is Finished) ==> (scan(instance_id, at, reply).1 matches ScanMoveView::Failed {
            close_class,
            ..
        } ==> close_class),
{
}

/// Whether a reply is one that a subtree whose subkeys store the
/// identifiers `ids`, in the order of their index, can give at this step:
/// a subkey is enumerated only where it exists, and a value that is read
/// is the identifier stored there.
pub open spec fn faithful(ids: Seq<Seq<char>>, at: ScanStep, reply: RegistryReply) -> bool {
    match at {
        ScanStep::Enumerating(index) => reply is Succeeded ==> index < ids.len(),
        ScanStep::Querying(index) => index < ids.len() && (reply matches RegistryReply::Value(
            value,
        ) ==> value@ == ids[index as int]),
        _ => true,
    }
}

/// The step and the last move of a scan after these replies; a scan that
/// has ended takes no further reply.
pub open spec fn scanned(
    instance_id: Seq<char>,
    at: ScanStep,
    last: ScanMoveView,
    replies: Seq<RegistryReply>,
) -> (ScanStep, ScanMoveView)
    decreases replies.len(),
{
    if replies.len() == 0 || at is Finished {
        (at, last)
    } else {
        let (next, made) = scan(instance_id, at, replies.first());
        scanned(instance_id, next, made, replies.skip(1))
    }
}

/// Whether every reply of the run is faithful to the subtree.
pub open spec fn faithful_run(
    ids: Seq<Seq<char>>,
    instance_id: Seq<char>,
    at: ScanStep,
    replies: Seq<RegistryReply>,
) -> bool
    decreases replies.len(),
{
    if replies.len() == 0 || at is Finished {
        true
    } else {
        faithful(ids, at, replies.first()) && faithful_run(
            ids,
            instance_id,
            scan(instance_id, at, replies.first()).0,
            replies.skip(1),
        )
    }
}

/// Whether `index` is the first subkey that stores the identifier.
pub open spec fn first_match(ids: Seq<Seq<char>>, instance_id: Seq<char>, index: u32) -> bool {
    &&& index < ids.len()
    &&& ids[index as int] == instance_id
    &&& forall|j: int| 0 <= j < index ==> ids[j] != instance_id
}

spec fn passed_over(ids: Seq<Seq<char>>, instance_id: Seq<char>, index: u32) -> bool {
    forall|j: int| 0 <= j < index && j < ids.len() ==> ids[j] != instance_id
}

spec fn on_course(
    ids: Seq<Seq<char>>,
    instance_id: Seq<char>,
    at: ScanStep,
    last: ScanMoveView,
) -> bool {
    match at {
        ScanStep::Opening => true,
        ScanStep::Enumerating(index) => passed_over(ids, instance_id, index),
        ScanStep::OpeningSubkey(index) => index < ids.len() && passed_over(
            ids,
            instance_id,
            index,
        ),
        ScanStep::Querying(index) => index < ids.len() && passed_over(ids, instance_id, index),
        ScanStep::Finished => last matches ScanMoveView::Found(index) ==> first_match(
            ids,
            instance_id,
            index,
        ),
    }
}

proof fn stays_on_course(
    ids: Seq<Seq<char>>,
    instance_id: Seq<char>,
    at: ScanStep,
    last: ScanMoveView,
    replies: Seq<RegistryReply>,
)
    requires
        on_course(ids, instance_id, at, last),
        faithful_run(ids, instance_id, at, replies),
    ensures
        on_course(
            ids,
            instance_id,
            scanned(instance_id, at, last, replies).0,
            scanned(instance_id, at, last, replies).1,
        ),
    decreases replies.len(),
{
    if replies.len() == 0 || at is Finished {
    } else {
        let (next, made) = scan(instance_id, at, replies.first());
        assert(on_course(ids, instance_id, next, made));
        stays_on_course(ids, instance_id, next, made, replies.skip(1));
    }
}

/// The scan finds the first subkey that stores the adapter's identifier:
/// against a subtree whose subkeys store `ids`, a scan from the beginning
/// that ends in `Found` has found the lowest index at which the
/// identifier is stored.
pub proof fn scan_finds_the_first_match(
    ids: Seq<Seq<char>>,
    instance_id: Seq<char>,
    replies: Seq<RegistryReply>,
    index: u32,
)
    requires
        replies.len() > 0,
        faithful_run(ids, instance_id, ScanStep::Opening, replies),
        scanned(instance_id, ScanStep::Opening, ScanMoveView::Enumerate(0), replies).1
            == ScanMoveView::Found(index),
    ensures
        first_match(ids, instance_id, index),
{
    let start = ScanMoveView::Enumerate(0);
    stays_on_course(ids, instance_id, ScanStep::Opening, start, replies);
    found_ends_the_scan(instance_id, ScanStep::Opening, start, replies);
}

proof fn found_ends_the_scan(
    instance_id: Seq<char>,
    at: ScanStep,
    last: ScanMoveView,
    replies: Seq<RegistryReply>,
)
    requires
        (last is Found) ==> (at is Finished),
    ensures
        (scanned(instance_id, at, last, replies).1 is Found) ==> (scanned(
            instance_id,
            at,
            last,
            replies,
        ).0 is Finished),
    decreases replies.len(),
{
    if replies.len() == 0 || at is Finished {
    } else {
        let (next, made) = scan(instance_id, at, replies.first());
        found_ends_the_scan(instance_id, next, made, replies.skip(1));
    }
}

/// Where a change on this platform stands.
#[derive(Clone, Copy, Debug, PartialEq, Eq, Structural)]
pub enum WindowsPhase {
    /// Finding the adapter's configuration key.
    Locating,
    /// Storing the new address.
    Writing,
    /// Disconnecting the adapter.
    Disconnecting,
    /// Connecting the adapter again.
    Connecting,
    Finished,
}

/// What the caller is to do next.
#[derive(Clone, Debug, PartialEq, Eq)]
pub enum WindowsRequest {
    /// Find the configuration key of the adapter (`get_registry_key`).
    LocateKey,
    /// Store this text as the value `NetworkAddress` of the key.
    WriteAddress(String),
    /// Connect (`true`) or disconnect the adapter
    /// (`change_adapter_connection_status`).
    Toggle(bool),
}

/// How the caller fared.
#[derive(Clone, Debug, PartialEq, Eq)]
pub enum WindowsReply {
    Succeeded,
    Failed(MacchangerError),
}

/// The next move of a change: another request, or the end.
#[derive(Clone, Debug, PartialEq, Eq)]
pub enum WindowsMove {
    Ask(WindowsRequest),
    Done(Outcome),
}

/// A `WindowsMove` as a mathematical value.
pub enum WindowsMoveView {
    LocateKey,
    WriteAddress(Seq<char>),
    Toggle(bool),
    Done(Outcome),
}

impl View for WindowsMove {
    type V = WindowsMoveView;

    open spec fn view(&self) -> WindowsMoveView {
        match *self {
            WindowsMove::Ask(WindowsRequest::LocateKey) => WindowsMoveView::LocateKey,
            WindowsMove::Ask(WindowsRequest::WriteAddress(value)) => WindowsMoveView::WriteAddress(
                value@,
            ),
            WindowsMove::Ask(WindowsRequest::Toggle(status)) => WindowsMoveView::Toggle(status),
            WindowsMove::Done(outcome) => WindowsMoveView::Done(outcome),
        }
    }
}

/// One address change in progress on this platform.
#[derive(Clone, Debug, PartialEq, Eq)]
pub struct WindowsMutator {
    pub adapter: WindowsAdapter,
    pub target: MacAddress,
    pub phase: WindowsPhase,
}

/// The end of a change at a failed stage.
pub open spec fn windows_failed(stage: Stage, cause: MacchangerError) -> (
    WindowsPhase,
    WindowsMoveView,
) {
    (
        WindowsPhase::Finished,
        WindowsMoveView::Done(Outcome::Failed(MutationError { stage, cause })),
    )
}

/// The transition of a change on this platform: the new address is stored
/// as hexadecimal digits without separators; only then is the adapter
/// disconnected and connected again, once each. The first failure ends
/// the change at its stage; a refused write is a `ConnectionResetError`.
pub open spec fn windows_step(phase: WindowsPhase, target: MacAddress, reply: WindowsReply) -> (
    WindowsPhase,
    WindowsMoveView,
) {
    match (phase, reply) {
        (WindowsPhase::Locating, WindowsReply::Succeeded) => (
            WindowsPhase::Writing,
            WindowsMoveView::WriteAddress(hex_run(target@)),
        ),
        (WindowsPhase::Locating, WindowsReply::Failed(cause)) => windows_failed(
            Stage::RegistryWrite,
            cause,
        ),
        (WindowsPhase::Writing, WindowsReply::Succeeded) => (
            WindowsPhase::Disconnecting,
            WindowsMoveView::Toggle(false),
        ),
        (WindowsPhase::Writing, WindowsReply::Failed(_)) => windows_failed(
            Stage::RegistryWrite,
            MacchangerError::ConnectionResetError,
        ),
        (WindowsPhase::Disconnecting, WindowsReply::Succeeded) => (
            WindowsPhase::Connecting,
            WindowsMoveView::Toggle(true),
        ),
        (WindowsPhase::Disconnecting, WindowsReply::Failed(cause)) => windows_failed(
            Stage::Reconnect,
            cause,
        ),
        (WindowsPhase::Connecting, WindowsReply::Succeeded) => (
            WindowsPhase::Finished,
            WindowsMoveView::Done(Outcome::Changed(target)),
        ),
        (WindowsPhase::Connecting, WindowsReply::Failed(cause)) => windows_failed(
            Stage::Reconnect,
            cause,
        ),
        (WindowsPhase::Finished, _) => (
            WindowsPhase::Finished,
            WindowsMoveView::Done(Outcome::Stray),
        ),
    }
}

impl WindowsMutator {
    fn fail(&mut self, stage: Stage, cause: MacchangerError) -> (mv: WindowsMove)
        ensures
            (final(self).phase, mv@) == windows_failed(stage, cause),
            final(self).adapter == old(self).adapter,
            final(self).target == old(self).target,
    {
        self.phase = WindowsPhase::Finished;
        WindowsMove::Done(Outcome::Failed(MutationError { stage, cause }))
    }

    /// Takes the result of the request that is pending and says what to
    /// do next.
    pub fn advance(&mut self, reply: WindowsReply) -> (mv: WindowsMove)
        ensures
            (final(self).phase, mv@) == windows_step(old(self).phase, old(self).target, reply),
            final(self).adapter == old(self).adapter,
            final(self).target == old(self).target,
    {
        match self.phase {
            WindowsPhase::Locating => match reply {
                WindowsReply::Succeeded => {
                    self.phase = WindowsPhase::Writing;
                    WindowsMove::Ask(WindowsRequest::WriteAddress(self.target.registry_value()))
                },
                WindowsReply::Failed(cause) => self.fail(Stage::RegistryWrite, cause),
            },
            WindowsPhase::Writing => match reply {
                WindowsReply::Succeeded => {
                    self.phase = WindowsPhase::Disconnecting;
                    WindowsMove::Ask(WindowsRequest::Toggle(false))
                },
                WindowsReply::Failed(_) => self.fail(
                    Stage::RegistryWrite,
                    MacchangerError::ConnectionResetError,
                ),
            },
            WindowsPhase::Disconnecting => match reply {
                WindowsReply::Succeeded => {
                    self.phase = WindowsPhase::Connecting;
                    WindowsMove::Ask(WindowsRequest::Toggle(true))
                },
                WindowsReply::Failed(cause) => self.fail(Stage::Reconnect, cause),
            },
            WindowsPhase::Connecting => match reply {
                WindowsReply::Succeeded => {
                    self.phase = WindowsPhase::Finished;
                    WindowsMove::Done(Outcome::Changed(self.target))
                },
                WindowsReply::Failed(cause) => self.fail(Stage::Reconnect, cause),
            },
            WindowsPhase::Finished => WindowsMove::Done(Outcome::Stray),
        }
    }
}

/// What `change_mac` returns: a change at its beginning, for the adapter
/// that `get_adapter` finds, or the failure of `get_adapter`.
pub open spec fn change_begun(
    mac: MacAddress,
    interface: Seq<char>,
    records: Seq<RawWindowsRecord>,
    r: Result<WindowsMutator, MacchangerError>,
) -> bool {
    match r {
        Ok(m) => m.phase == WindowsPhase::Locating && m.target == mac && adapter_found(
            interface,
            records,
            Ok(m.adapter@),
        ),
        Err(e) => adapter_found(interface, records, Err(e)),
    }
}

/// Begins the change of the address of `interface` to `mac`, given what
/// the enumerator reported. On success the caller finds the adapter's
/// configuration key, hands the result to `WindowsMutator::advance`, and
/// goes on until that says `Done`. Fails as `get_adapter` fails.
pub fn change_mac(mac: MacAddress, interface: &String, records: &Vec<RawWindowsRecord>) -> (r:
    Result<WindowsMutator, MacchangerError>)
    ensures
        change_begun(mac, interface@, records@, r),
{
    match get_adapter(interface, records) {
        Ok(adapter) => Ok(WindowsMutator { adapter, target: mac, phase: WindowsPhase::Locating }),
        Err(e) => Err(e),
    }
}

/// The adapter's connection is toggled only after the new address has
/// been stored, and a change succeeds only on the answer that the adapter
/// is connected again.
pub proof fn reconnection_follows_the_write(
    phase: WindowsPhase,
    target: MacAddress,
    reply: WindowsReply,
)
    ensures
        windows_step(phase, target, reply).1 is Toggle ==> reply is Succeeded && (phase
            == WindowsPhase::Writing || phase == WindowsPhase::Disconnecting),
        windows_step(phase, target, reply).1 == WindowsMoveView::Done(Outcome::Changed(target))
            ==> phase == WindowsPhase::Connecting && reply is Succeeded,
        (phase is Locating || phase is Writing) ==> (windows_step(phase, target, reply).1
            matches WindowsMoveView::Done(Outcome::Failed(e)) ==> e.stage == Stage::RegistryWrite),
{
}

} // verus!
