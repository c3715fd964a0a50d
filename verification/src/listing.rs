use vstd::prelude::*;
use serde_json::Value;
use crate::device::{device_views, Device, DeviceView};
use crate::json::{
    entries, entry_pairs, items, json_document, json_entries, json_items, json_member, json_text,
    member, parse_document, text,
};

verus! {

/// One device object of a listing, before it is tagged with its runtime.
#[derive(Debug, PartialEq, Eq)]
pub struct DeviceEntry {
    pub name: String,
    pub state: String,
    pub udid: String,
    pub device_type: String,
}

/// The mathematical value of a [`DeviceEntry`].
pub struct EntryView {
    pub name: Seq<char>,
    pub state: Seq<char>,
    pub udid: Seq<char>,
    pub device_type: Seq<char>,
}

impl View for DeviceEntry {
    type V = EntryView;

    open spec fn view(&self) -> EntryView {
        EntryView {
            name: self.name@,
            state: self.state@,
            udid: self.udid@,
            device_type: self.device_type@,
        }
    }
}

/// The devices listed under one runtime identifier.
#[derive(Debug, PartialEq, Eq)]
pub struct RuntimeGroup {
    pub runtime: String,
    pub entries: Vec<DeviceEntry>,
}

/// The mathematical value of a [`RuntimeGroup`].
pub struct GroupView {
    pub runtime: Seq<char>,
    pub entries: Seq<EntryView>,
}

/// The values of a sequence of entries, in order.
pub open spec fn entry_views(entries: Seq<DeviceEntry>) -> Seq<EntryView> {
    Seq::new(entries.len(), |i: int| entries[i]@)
}

impl View for RuntimeGroup {
    type V = GroupView;

    open spec fn view(&self) -> GroupView {
        GroupView { runtime: self.runtime@, entries: entry_views(self.entries@) }
    }
}

/// The values of a sequence of groups, in order.
pub open spec fn group_views(groups: Seq<RuntimeGroup>) -> Seq<GroupView> {
    Seq::new(groups.len(), |i: int| groups[i]@)
}

/// Why a listing could not be turned into devices.
#[derive(Debug, Clone, Copy, PartialEq, Eq, Structural)]
pub enum ListingError {
    /// The bytes are no JSON document.
    InvalidJson,
    /// The document lacks the `devices` object, a runtime's value is no
    /// array, or a device lacks one of its four string fields.
    UnexpectedShape,
}

/// The device `entry` tagged with the runtime it was listed under.
pub open spec fn tagged(runtime: Seq<char>, entry: EntryView) -> DeviceView {
    DeviceView {
        name: entry.name,
        state: entry.state,
        udid: entry.udid,
        device_type: entry.device_type,
        runtime,
    }
}

/// The devices of one group, each tagged with the group's runtime.
pub open spec fn group_devices(group: GroupView) -> Seq<DeviceView> {
    Seq::new(group.entries.len(), |i: int| tagged(group.runtime, group.entries[i]))
}

/// All devices of the groups in one list: group after group, each group's
/// devices in their order.
pub open spec fn flattened(groups: Seq<GroupView>) -> Seq<DeviceView>
    decreases groups.len(),
{
    if groups.len() == 0 {
        Seq::empty()
    } else {
        flattened(groups.drop_last()) + group_devices(groups.last())
    }
}

/// How many devices the groups hold together.
pub open spec fn entry_count(groups: Seq<GroupView>) -> nat
    decreases groups.len(),
{
    if groups.len() == 0 {
        0
    } else {
        entry_count(groups.drop_last()) + groups.last().entries.len()
    }
}

/// Flattening keeps every device: the list is as long as the groups hold
/// devices together.
pub proof fn lemma_flattened_len(groups: Seq<GroupView>)
    ensures
        flattened(groups).len() == entry_count(groups),
    decreases groups.len(),
{
    if groups.len() > 0 {
        lemma_flattened_len(groups.drop_last());
    }
}

/// Each flattened device carries the runtime key of the group it came from:
/// device `j` of group `g` stands behind all devices of the groups before
/// `g`, with its own fields and the runtime of `g`.
pub proof fn lemma_flattened_tag(groups: Seq<GroupView>, g: int, j: int)
    requires
        0 <= g < groups.len(),
        0 <= j < groups[g].entries.len(),
    ensures
        entry_count(groups.take(g)) + j < flattened(groups).len(),
        flattened(groups)[entry_count(groups.take(g)) + j] == tagged(
            groups[g].runtime,
            groups[g].entries[j],
        ),
    decreases groups.len(),
{
    let front = groups.drop_last();
    lemma_flattened_len(front);
    lemma_flattened_len(groups);
    if g == groups.len() - 1 {
        assert(groups.take(g) =~= front);
    } else {
        lemma_flattened_tag(front, g, j);
        assert(front.take(g) =~= groups.take(g));
    }
}

/// Puts the devices of all groups into one list, each tagged with the
/// runtime of its group.
pub fn flatten(groups: &Vec<RuntimeGroup>) -> (devices: Vec<Device>)
    ensures
        device_views(devices@) == flattened(group_views(groups@)),
        devices@.len() == entry_count(group_views(groups@)),
{
    let ghost all = group_views(groups@);
    let mut devices: Vec<Device> = Vec::new();
    let mut g: usize = 0;
    assert(all.take(0) =~= Seq::<GroupView>::empty());
    assert(device_views(devices@) =~= flattened(all.take(0)));
    while g < groups.len()
        invariant
            g <= groups.len(),
            all == group_views(groups@),
            device_views(devices@) == flattened(all.take(g as int)),
        decreases groups.len() - g,
    {
        let group = &groups[g];
        let ghost done = flattened(all.take(g as int));
        let mut j: usize = 0;
        assert(device_views(devices@) =~= done + group_devices(group@).take(0));
        while j < group.entries.len()
            invariant
                j <= group.entries.len(),
                device_views(devices@) == done + group_devices(group@).take(j as int),
            decreases group.entries.len() - j,
        {
            let entry = &group.entries[j];
            let device = Device {
                name: entry.name.clone(),
                state: entry.state.clone(),
                udid: entry.udid.clone(),
                device_type: entry.device_type.clone(),
                runtime: group.runtime.clone(),
            };
            assert(device@ == group_devices(group@)[j as int]);
            let ghost before = device_views(devices@);
            devices.push(device);
            j = j + 1;
            assert(device_views(devices@) =~= before.push(group_devices(group@)[j - 1]));
            assert(device_views(devices@) =~= done + group_devices(group@).take(j as int));
        }
        assert(group_devices(group@).take(j as int) =~= group_devices(group@));
        g = g + 1;
        assert(all.take(g as int).drop_last() =~= all.take(g - 1));
        assert(all.take(g as int).last() == group@);
    }
    assert(all.take(g as int) =~= all);
    proof {
        lemma_flattened_len(all);
        assert(device_views(devices@).len() == devices@.len());
    }
    devices
}

/// The string member of `value` under `key`, where it has one.
pub open spec fn text_member(value: Value, key: Seq<char>) -> Option<Seq<char>> {
    match json_member(value, key) {
        Some(found) => json_text(found),
        None => None,
    }
}

/// The device that the JSON object `value` describes: it needs the string
/// members `name`, `state`, `udid` and `deviceTypeIdentifier`.
pub open spec fn entry_of(value: Value) -> Option<EntryView> {
    match (
        text_member(value, "name"@),
        text_member(value, "state"@),
        text_member(value, "udid"@),
        text_member(value, "deviceTypeIdentifier"@),
    ) {
        (Some(name), Some(state), Some(udid), Some(device_type)) => Some(
            EntryView { name, state, udid, device_type },
        ),
        _ => None,
    }
}

/// The devices that the JSON values describe, where each describes one.
pub open spec fn entries_of(values: Seq<Value>) -> Option<Seq<EntryView>> {
    if forall|i: int| 0 <= i < values.len() ==> (#[trigger] entry_of(values[i])) is Some {
        Some(Seq::new(values.len(), |i: int| entry_of(values[i])->0))
    } else {
        None
    }
}

/// The group that one member of the `devices` object describes: its key is
/// the runtime, its value an array of device objects.
pub open spec fn group_of(member: (Seq<char>, Value)) -> Option<GroupView> {
    match json_items(member.1) {
        Some(values) => match entries_of(values) {
            Some(found) => Some(GroupView { runtime: member.0, entries: found }),
            None => None,
        },
        None => None,
    }
}

/// The groups that a parsed listing holds: one for each member of its
/// `devices` object, in the order of the object.
pub open spec fn groups_of(document: Value) -> Option<Seq<GroupView>> {
    match json_member(document, "devices"@) {
        Some(devices) => match json_entries(devices) {
            Some(members) => if forall|i: int|
                0 <= i < members.len() ==> (#[trigger] group_of(members[i])) is Some {
                Some(Seq::new(members.len(), |i: int| group_of(members[i])->0))
            } else {
                None
            },
            None => None,
        },
        None => None,
    }
}

/// What a listing given as bytes amounts to: the flattened devices, or the
/// reason there are none.
pub open spec fn listing_of(bytes: Seq<u8>) -> Result<Seq<DeviceView>, ListingError> {
    match json_document(bytes) {
        Some(document) => match groups_of(document) {
            Some(groups) => Ok(flattened(groups)),
            None => Err(ListingError::UnexpectedShape),
        },
        None => Err(ListingError::InvalidJson),
    }
}

/// A listing that is accepted yields exactly the devices that its groups
/// hold together.
pub proof fn lemma_listing_count(bytes: Seq<u8>)
    ensures
        listing_of(bytes) matches Ok(devices) ==> {
            &&& json_document(bytes) is Some
            &&& groups_of(json_document(bytes)->0) is Some
            &&& devices.len() == entry_count(groups_of(json_document(bytes)->0)->0)
        },
        listing_of(bytes) is Ok <==> json_document(bytes) is Some && groups_of(
            json_document(bytes)->0,
        ) is Some,
{
    if listing_of(bytes) is Ok {
        lemma_flattened_len(groups_of(json_document(bytes)->0)->0);
    }
}

/// Reads the string member of `value` under `key`.
fn read_text(value: &Value, key: &str) -> (found: Option<String>)
    ensures
        found is Some <==> text_member(*value, key@) is Some,
        found matches Some(characters) ==> text_member(*value, key@) == Some(characters@),
{
    match member(value, key) {
        Some(inner) => match text(inner) {
            Some(characters) => Some(characters.to_owned()),
            None => None,
        },
        None => None,
    }
}

/// Reads one device object.
pub fn read_entry(value: &Value) -> (found: Option<DeviceEntry>)
    ensures
        found is Some <==> entry_of(*value) is Some,
        found matches Some(entry) ==> entry_of(*value) == Some(entry@),
{
    let name = read_text(value, "name");
    let state = read_text(value, "state");
    let udid = read_text(value, "udid");
    let device_type = read_text(value, "deviceTypeIdentifier");
    match (name, state, udid, device_type) {
        (Some(name), Some(state), Some(udid), Some(device_type)) => Some(
            DeviceEntry { name, state, udid, device_type },
        ),
        _ => None,
    }
}

/// Reads the device objects of one runtime.
pub fn read_entries(values: &Vec<Value>) -> (found: Option<Vec<DeviceEntry>>)
    ensures
        found is Some <==> entries_of(values@) is Some,
        found matches Some(list) ==> entries_of(values@) == Some(entry_views(list@)),
{
    let mut list: Vec<DeviceEntry> = Vec::new();
    let mut i: usize = 0;
    while i < values.len()
        invariant
            i <= values.len(),
            list@.len() == i,
            forall|k: int| 0 <= k < i ==> (#[trigger] entry_of(values@[k])) == Some(list@[k]@),
        decreases values.len() - i,
    {
        match read_entry(&values[i]) {
            Some(entry) => {
                list.push(entry);
            },
            None => {
                assert(entry_of(values@[i as int]) is None);
                return None;
            },
        }
        i = i + 1;
    }
    assert(entries_of(values@)->0 =~= entry_views(list@));
    Some(list)
}

/// Reads the groups of a parsed listing.
pub fn read_groups(document: &Value) -> (found: Option<Vec<RuntimeGroup>>)
    ensures
        found is Some <==> groups_of(*document) is Some,
        found matches Some(groups) ==> groups_of(*document) == Some(group_views(groups@)),
{
    let members = match member(document, "devices") {
        Some(devices) => match entries(devices) {
            Some(members) => members,
            None => {
                return None;
            },
        },
        None => {
            return None;
        },
    };
    let ghost pairs = entry_pairs(members@);
    let mut groups: Vec<RuntimeGroup> = Vec::new();
    let mut i: usize = 0;
    while i < members.len()
        invariant
            i <= members.len(),
            groups@.len() == i,
            pairs == entry_pairs(members@),
            json_member(*document, "devices"@) is Some,
            json_entries(json_member(*document, "devices"@)->0) == Some(pairs),
            forall|k: int| 0 <= k < i ==> (#[trigger] group_of(pairs[k])) == Some(groups@[k]@),
        decreases members.len() - i,
    {
        let found = match items(members[i].1) {
            Some(values) => read_entries(values),
            None => None,
        };
        match found {
            Some(list) => {
                groups.push(RuntimeGroup { runtime: members[i].0.clone(), entries: list });
            },
            None => {
                assert(group_of(pairs[i as int]) is None);
                return None;
            },
        }
        i = i + 1;
    }
    assert(groups_of(*document)->0 =~= group_views(groups@));
    Some(groups)
}

/// Turns the device manager's JSON listing into the flat list of devices,
/// each tagged with the runtime key it was listed under.
pub fn parse_listing(bytes: &[u8]) -> (outcome: Result<Vec<Device>, ListingError>)
    ensures
        match outcome {
            Ok(devices) => listing_of(bytes@) == Ok::<Seq<DeviceView>, ListingError>(
                device_views(devices@),
            ),
            Err(error) => listing_of(bytes@) == Err::<Seq<DeviceView>, ListingError>(error),
        },
{
    match parse_document(bytes) {
        Ok(document) => match read_groups(&document) {
            Some(groups) => Ok(flatten(&groups)),
            None => Err(ListingError::UnexpectedShape),
        },
        Err(_) => Err(ListingError::InvalidJson),
    }
}

} // verus!
