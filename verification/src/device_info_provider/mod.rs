//! The device registry: the store that owns the devices, room by room, and
//! answers questions about them.
//!
//! A registry has one owner. Whoever changes it holds it exclusively for the
//! length of the call, so a check and the change that follows it cannot be
//! parted by another caller.

pub mod devices;
pub mod store;

use dashmap::DashMap;
use vstd::prelude::*;

use crate::error::{CustomError, CustomErrorView};
use crate::house::CustomResult;
use crate::smart_device::command::{answer_view, CommandData, ExecutionResult};
use crate::smart_device::{ExecutionResultView, SmartDevice};
use crate::text::{lowercase, same_name, to_lowercase};
use devices::{
    add_to_room, after_command, answer_to, execute_in_room, first_folded, first_named, has_folded,
    has_named, is_first_folded, is_first_named, lemma_first_folded_is_first, names_unique,
    room_lookup,
};
use store::{
    empty_store, lists_rooms, look_in_room, no_rooms, put_room, room_keys, rooms_of, take_room, Rooms,
};

verus! {

/// What a lookup tells of a device: its kind, its name and its state, each
/// as a text.
#[derive(Debug)]
pub struct DeviceInfo {
    pub kind: String,
    pub name: String,
    pub state: String,
}

/// A [`DeviceInfo`] with its texts as sequences of characters.
pub struct DeviceInfoView {
    pub kind: Seq<char>,
    pub name: Seq<char>,
    pub state: Seq<char>,
}

impl View for DeviceInfo {
    type V = DeviceInfoView;

    open spec fn view(&self) -> DeviceInfoView {
        DeviceInfoView { kind: self.kind@, name: self.name@, state: self.state@ }
    }
}

impl SmartDevice {
    /// What a lookup tells of this device.
    pub open spec fn info(self) -> DeviceInfoView {
        DeviceInfoView { kind: self.kind_text(), name: self.name(), state: self.state_text() }
    }

    /// What a lookup tells of this device.
    pub fn describe(&self) -> (info: DeviceInfo)
        ensures
            info@ == self.info(),
    {
        DeviceInfo { kind: self.get_type(), name: self.get_name(), state: self.get_state() }
    }
}

/// What a lookup gives, with texts as sequences of characters.
pub open spec fn lookup_view(found: CustomResult<DeviceInfo>) -> Result<
    DeviceInfoView,
    CustomErrorView,
> {
    match found {
        Ok(info) => Ok(info@),
        Err(error) => Err(error@),
    }
}

/// Whether every room's devices have names that differ in more than letter
/// case.
pub open spec fn rooms_unique(rooms: Rooms) -> bool {
    forall|key: Seq<char>| rooms.contains_key(key) ==> names_unique(#[trigger] rooms[key])
}

/// The devices of a room, or none where the registry has no such room.
pub open spec fn devices_under(rooms: Rooms, key: Seq<char>) -> Seq<SmartDevice> {
    if rooms.contains_key(key) {
        rooms[key]
    } else {
        Seq::empty()
    }
}

/// What looking up `device` in `room` gives: the room is found by its name
/// in lower case, the device in it by its name with letter case set aside.
pub open spec fn lookup(rooms: Rooms, room: Seq<char>, device: Seq<char>)
    -> Result<DeviceInfoView, CustomErrorView> {
    if rooms.contains_key(lowercase(room)) {
        room_lookup(rooms[lowercase(room)], device)
    } else {
        Err(CustomErrorView::RoomNotFound)
    }
}

/// Whether `room` has a device whose name differs from `name` in letter
/// case at most.
pub open spec fn is_taken(rooms: Rooms, room: Seq<char>, name: Seq<char>)
    -> bool {
    has_folded(devices_under(rooms, lowercase(room)), lowercase(name))
}

/// The registry with `device` as the last device of `room`.
pub open spec fn with_device(
    rooms: Rooms,
    room: Seq<char>,
    device: SmartDevice,
) -> Rooms {
    rooms.insert(lowercase(room), devices_under(rooms, lowercase(room)).push(device))
}

/// Whether any room holds a device named exactly `name`.
pub open spec fn holds_named(rooms: Rooms, name: Seq<char>) -> bool {
    exists|key: Seq<char>| rooms.contains_key(key) && has_named(#[trigger] rooms[key], name)
}

/// Whether `after` and `answer` are what comes of carrying out `command`
/// on the first device named as it says in the room under `key`.
pub open spec fn carried_out(
    before: Rooms,
    after: Rooms,
    answer: Result<ExecutionResultView, CustomErrorView>,
    key: Seq<char>,
    command: CommandData,
) -> bool {
    &&& before.contains_key(key)
    &&& has_named(before[key], command.device_name@)
    &&& is_first_named(
        before[key],
        command.device_name@,
        first_named(before[key], command.device_name@),
    )
    &&& after == before.insert(key, after_command(before[key], command.device_name@, command.data))
    &&& answer == answer_to(before[key], command.device_name@, command.data)
}

/// Where one room only holds a device of the name that a command says, the
/// command has one outcome: whatever room the search came to first, the
/// registry afterwards and the answer are the same.
pub proof fn lemma_one_room_one_outcome(
    before: Rooms,
    command: CommandData,
    key: Seq<char>,
    after: Rooms,
    answer: Result<ExecutionResultView, CustomErrorView>,
    other_key: Seq<char>,
    other_after: Rooms,
    other_answer: Result<ExecutionResultView, CustomErrorView>,
)
    requires
        carried_out(before, after, answer, key, command),
        carried_out(before, other_after, other_answer, other_key, command),
        forall|a: Seq<char>, b: Seq<char>|
            before.contains_key(a) && has_named(#[trigger] before[a], command.device_name@)
                && before.contains_key(b) && has_named(
                #[trigger] before[b],
                command.device_name@,
            ) ==> a == b,
    ensures
        key == other_key,
        after == other_after,
        answer == other_answer,
{
}

/// The registry after an attempt to add `device` to `room`: as it was where
/// the name is taken, else with the device as the last of the room.
pub open spec fn after_adding(
    rooms: Rooms,
    room: Seq<char>,
    device: SmartDevice,
) -> Rooms {
    if is_taken(rooms, room, device.name()) {
        rooms
    } else {
        with_device(rooms, room, device)
    }
}

/// The registry after attempts to add each of `devices` to `room`, one
/// after the other.
pub open spec fn after_adding_all(
    rooms: Rooms,
    room: Seq<char>,
    devices: Seq<SmartDevice>,
) -> Rooms
    decreases devices.len(),
{
    if devices.len() == 0 {
        rooms
    } else {
        after_adding(after_adding_all(rooms, room, devices.drop_last()), room, devices.last())
    }
}

/// Of two devices whose names differ in letter case at most, a room takes
/// one: either is refused where the other is, and once the first has been
/// added the second is refused.
pub proof fn lemma_same_name_added_once(
    rooms: Rooms,
    room: Seq<char>,
    first: SmartDevice,
    second: SmartDevice,
)
    requires
        same_name(first.name(), second.name()),
    ensures
        is_taken(rooms, room, first.name()) == is_taken(rooms, room, second.name()),
        is_taken(with_device(rooms, room, first), room, second.name()),
{
    let devices = devices_under(with_device(rooms, room, first), lowercase(room));
    assert(lowercase(devices[devices.len() - 1].name()) == lowercase(second.name()));
}

/// A name that is taken in a room stays taken, whatever is added to the
/// registry.
pub proof fn lemma_taken_stays_taken(
    rooms: Rooms,
    room: Seq<char>,
    name: Seq<char>,
    other_room: Seq<char>,
    device: SmartDevice,
)
    requires
        is_taken(rooms, room, name),
    ensures
        is_taken(with_device(rooms, other_room, device), room, name),
{
    let before = devices_under(rooms, lowercase(room));
    let at = choose|at: int|
        0 <= at < before.len() && lowercase(#[trigger] before[at].name()) == lowercase(name);
    let after = devices_under(with_device(rooms, other_room, device), lowercase(room));
    assert(lowercase(after[at].name()) == lowercase(name));
}

/// A device that was added is found again, under any spelling of the room's
/// name and of its own that differs in letter case at most.
pub proof fn lemma_added_device_is_found(
    rooms: Rooms,
    room: Seq<char>,
    device: SmartDevice,
    asked_room: Seq<char>,
    asked_name: Seq<char>,
)
    requires
        !is_taken(rooms, room, device.name()),
        same_name(room, asked_room),
        same_name(device.name(), asked_name),
    ensures
        lookup(with_device(rooms, room, device), asked_room, asked_name) == Ok::<
            DeviceInfoView,
            CustomErrorView,
        >(device.info()),
{
    let before = devices_under(rooms, lowercase(room));
    let after = with_device(rooms, room, device)[lowercase(room)];
    let folded = lowercase(asked_name);
    let last = before.len() as int;
    assert(after[last] == device);
    assert forall|at: int| 0 <= at < last implies lowercase(#[trigger] after[at].name())
        != folded by {
        assert(after[at] == before[at]);
    }
    assert(devices::is_first_folded(after, folded, last));
}

/// Devices whose names differ in more than letter case, from each other and
/// from those that a room has, are all added, in whatever number they come:
/// none is refused when its turn comes, and the room then has them after
/// those it had, in their order.
pub proof fn lemma_distinct_names_all_added(
    rooms: Rooms,
    room: Seq<char>,
    devices: Seq<SmartDevice>,
)
    requires
        names_unique(devices),
        forall|i: int|
            0 <= i < devices.len() ==> !is_taken(rooms, room, #[trigger] devices[i].name()),
    ensures
        forall|i: int|
            0 <= i < devices.len() ==> !is_taken(
                after_adding_all(rooms, room, devices.take(i)),
                room,
                #[trigger] devices[i].name(),
            ),
        devices_under(after_adding_all(rooms, room, devices), lowercase(room)) == devices_under(
            rooms,
            lowercase(room),
        ) + devices,
    decreases devices.len(),
{
    let key = lowercase(room);
    let had = devices_under(rooms, key);
    if devices.len() == 0 {
        assert(had + devices =~= had);
    } else {
        let earlier = devices.drop_last();
        lemma_distinct_names_all_added(rooms, room, earlier);
        let so_far = after_adding_all(rooms, room, earlier);
        assert(devices_under(so_far, key) == had + earlier);
        let there = had + earlier;
        assert forall|at: int| 0 <= at < there.len() implies lowercase(
            #[trigger] there[at].name(),
        ) != lowercase(devices.last().name()) by {
            if at < had.len() {
                assert(there[at] == had[at]);
            } else {
                assert(there[at] == devices[at - had.len()]);
            }
        }
        assert(!is_taken(so_far, room, devices.last().name()));
        assert(devices_under(after_adding_all(rooms, room, devices), key) =~= had + devices);
        assert forall|i: int| 0 <= i < devices.len() implies !is_taken(
            after_adding_all(rooms, room, devices.take(i)),
            room,
            #[trigger] devices[i].name(),
        ) by {
            if i < earlier.len() {
                assert(devices.take(i) =~= earlier.take(i));
                assert(devices[i] == earlier[i]);
            } else {
                assert(devices.take(i) =~= earlier);
            }
        }
    }
}

/// Of devices whose names all differ in letter case at most, a room that
/// has none of that name takes the first and no other, in whatever number
/// they come: every later one is refused when its turn comes, and the
/// registry is then as the first alone left it.
pub proof fn lemma_one_name_added_once(
    rooms: Rooms,
    room: Seq<char>,
    devices: Seq<SmartDevice>,
)
    requires
        devices.len() > 0,
        forall|i: int|
            0 <= i < devices.len() ==> same_name(devices[0].name(), #[trigger] devices[i].name()),
        !is_taken(rooms, room, devices[0].name()),
    ensures
        forall|i: int|
            1 <= i < devices.len() ==> is_taken(
                after_adding_all(rooms, room, devices.take(i)),
                room,
                #[trigger] devices[i].name(),
            ),
        after_adding_all(rooms, room, devices) == with_device(rooms, room, devices[0]),
    decreases devices.len(),
{
    let first = devices[0];
    let earlier = devices.drop_last();
    if devices.len() == 1 {
        assert(earlier =~= Seq::<SmartDevice>::empty());
        assert(after_adding_all(rooms, room, earlier) == rooms);
    } else {
        assert(earlier[0] == first);
        assert forall|i: int| 0 <= i < earlier.len() implies same_name(
            earlier[0].name(),
            #[trigger] earlier[i].name(),
        ) by {
            assert(earlier[i] == devices[i]);
        }
        lemma_one_name_added_once(rooms, room, earlier);
        lemma_same_name_added_once(rooms, room, first, devices.last());
        assert forall|i: int| 1 <= i < devices.len() implies is_taken(
            after_adding_all(rooms, room, devices.take(i)),
            room,
            #[trigger] devices[i].name(),
        ) by {
            lemma_same_name_added_once(rooms, room, first, devices[i]);
            if i < earlier.len() {
                assert(devices.take(i) =~= earlier.take(i));
                assert(devices[i] == earlier[i]);
            } else {
                assert(devices.take(i) =~= earlier);
            }
        }
    }
}

/// A store of devices that can be asked about a device in a room.
pub trait DeviceInfoProvider {
    /// What the store tells of `device` in `room`. A store that does not say
    /// leaves it open.
    open spec fn info(&self, room: Seq<char>, device: Seq<char>) -> Result<
        DeviceInfoView,
        CustomErrorView,
    > {
        arbitrary()
    }

    /// Looks up `device` in `room`.
    fn get_device_info(&self, room: &str, device: &str) -> (found: CustomResult<DeviceInfo>)
        ensures
            lookup_view(found) == self.info(room@, device@),
    ;
}

/// The registry: for each room, under its name in lower case, the devices in
/// it, in the order in which they were added. The devices of a room have
/// names that differ in more than letter case.
#[derive(Debug)]
pub struct SmartDeviceList {
    rooms: DashMap<String, Vec<SmartDevice>>,
}

impl View for SmartDeviceList {
    type V = Rooms;

    closed spec fn view(&self) -> Rooms {
        rooms_of(&self.rooms)
    }
}

impl Default for SmartDeviceList {
    /// A registry without rooms.
    fn default() -> (list: SmartDeviceList)
        ensures
            list@ == no_rooms(),
    {
        SmartDeviceList::new()
    }
}

impl SmartDeviceList {
    #[verifier::type_invariant]
    spec fn well_formed(self) -> bool {
        rooms_unique(self@)
    }

    /// A registry without rooms.
    pub fn new() -> (list: SmartDeviceList)
        ensures
            list@ == no_rooms(),
    {
        SmartDeviceList { rooms: empty_store() }
    }

    /// Adds `device` to `room`, which is found, or made, under its name in
    /// lower case. A device whose name differs from that of a device of the
    /// room in letter case at most is refused, and the registry stays as it
    /// was.
    pub fn add_device(&mut self, room: &str, device: SmartDevice) -> (added: CustomResult<()>)
        ensures
            rooms_unique(final(self)@),
            final(self)@ == after_adding(old(self)@, room@, device),
            added is Ok <==> !is_taken(old(self)@, room@, device.name()),
            added matches Err(error) ==> error@ == CustomErrorView::AddDeviceError,
    {
        proof {
            use_type_invariant(&*self);
        }
        let key = to_lowercase(room);
        let mut devices = match take_room(&mut self.rooms, key.as_str()) {
            Some(devices) => devices,
            None => Vec::new(),
        };
        assert(devices@ == devices_under(old(self)@, key@));
        let added = add_to_room(&mut devices, device);
        put_room(&mut self.rooms, key, devices);
        assert(self@ =~= after_adding(old(self)@, room@, device));
        added
    }

    /// Carries out a command on the device that is named exactly as the
    /// command says. The rooms are searched in no particular order, each
    /// from its first device on, and the first device found carries out the
    /// command; a failure of the device comes back wrapped. Where no room
    /// holds such a device the registry stays as it was.
    pub fn execute_command(&mut self, cmd: CommandData) -> (answer: CustomResult<ExecutionResult>)
        ensures
            rooms_unique(final(self)@),
            !holds_named(old(self)@, cmd.device_name@) ==> {
                &&& answer matches Err(error)
                &&& error@ == CustomErrorView::DeviceNotFound
                &&& final(self)@ == old(self)@
            },
            holds_named(old(self)@, cmd.device_name@) ==> exists|key: Seq<char>|
                carried_out(old(self)@, final(self)@, answer_view(answer), key, cmd),
    {
        proof {
            use_type_invariant(&*self);
        }
        let keys = room_keys(&self.rooms);
        let mut next: usize = 0;
        while next < keys.len()
            invariant
                next <= keys.len(),
                self@ == old(self)@,
                rooms_unique(self@),
                lists_rooms(keys@, self@),
                forall|i: int|
                    0 <= i < next ==> !has_named(old(self)@[#[trigger] keys[i]@], cmd.device_name@),
            decreases keys.len() - next,
        {
            let key = keys[next].clone();
            match take_room(&mut self.rooms, key.as_str()) {
                Some(mut devices) => {
                    let given = execute_in_room(&mut devices, &cmd);
                    let ghost room = key@;
                    put_room(&mut self.rooms, key, devices);
                    match given {
                        Some(answer) => {
                            proof {
                                let before = old(self)@;
                                assert(self@ =~= before.insert(
                                    room,
                                    after_command(before[room], cmd.device_name@, cmd.data),
                                ));
                                assert(carried_out(before, self@, answer_view(answer), room, cmd));
                            }
                            return answer;
                        },
                        None => {
                            assert(self@ =~= old(self)@);
                        },
                    }
                },
                None => {},
            }
            next += 1;
        }
        Err(CustomError::DeviceNotFound)
    }
}

impl DeviceInfoProvider for SmartDeviceList {
    open spec fn info(&self, room: Seq<char>, device: Seq<char>) -> Result<
        DeviceInfoView,
        CustomErrorView,
    > {
        lookup(self@, room, device)
    }

    /// Looks up `device` in `room`. The room is found by its name in lower
    /// case, the device in it by its name with letter case set aside.
    fn get_device_info(&self, room: &str, device: &str) -> (found: CustomResult<DeviceInfo>)
        ensures
            found is Ok <==> self@.contains_key(lowercase(room@)) && has_folded(
                self@[lowercase(room@)],
                lowercase(device@),
            ),
            found is Ok ==> is_first_folded(
                self@[lowercase(room@)],
                lowercase(device@),
                first_folded(self@[lowercase(room@)], lowercase(device@)),
            ),
    {
        let key = to_lowercase(room);
        match look_in_room(&self.rooms, key.as_str(), device) {
            None => Err(CustomError::RoomNotFound),
            Some(told) => {
                proof {
                    if told is Ok {
                        lemma_first_folded_is_first(self@[key@], lowercase(device@));
                    }
                }
                told
            },
        }
    }
}

} // verus!
