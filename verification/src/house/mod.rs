//! The house: named rooms, each with the names of the devices in it.

pub mod report;

use vstd::prelude::*;

use crate::error::{CustomError, CustomErrorView};
use crate::text::{lowercase, same_name, text_eq, to_lowercase};

verus! {

/// What the operations of this library return.
pub type CustomResult<T> = Result<T, CustomError>;

/// The texts of a list of strings.
pub open spec fn texts_of(strings: Seq<String>) -> Seq<Seq<char>> {
    strings.map_values(|text: String| text@)
}

/// A room: its name, and the names of its devices in lower case, in the
/// order in which they were added. No name occurs twice.
#[derive(Debug)]
pub struct Room {
    name: String,
    devices: Vec<String>,
}

/// A [`Room`] with its texts as sequences of characters.
pub struct RoomView {
    pub name: Seq<char>,
    pub devices: Seq<Seq<char>>,
}

impl View for Room {
    type V = RoomView;

    closed spec fn view(&self) -> RoomView {
        RoomView { name: self.name@, devices: texts_of(self.devices@) }
    }
}

/// Where `name` stands in a list of names, or nothing.
fn position_of(names: &Vec<String>, name: &str) -> (found: Option<usize>)
    ensures
        found is Some <==> texts_of(names@).contains(name@),
        found matches Some(at) ==> at < names.len() && names[at as int]@ == name@,
{
    let mut at: usize = 0;
    while at < names.len()
        invariant
            at <= names.len(),
            forall|before: int| 0 <= before < at ==> #[trigger] texts_of(names@)[before] != name@,
        decreases names.len() - at,
    {
        if text_eq(names[at].as_str(), name) {
            assert(texts_of(names@)[at as int] == name@);
            return Some(at);
        }
        at += 1;
    }
    None
}

impl Room {
    #[verifier::type_invariant]
    spec fn well_formed(self) -> bool {
        self@.devices.no_duplicates()
    }

    /// A room of that name, without devices.
    pub fn with_name(name: &str) -> (room: Room)
        ensures
            room@.name == name@,
            room@.devices == Seq::<Seq<char>>::empty(),
    {
        let room = Room { name: name.to_owned(), devices: Vec::new() };
        assert(room@.devices =~= Seq::<Seq<char>>::empty());
        room
    }

    /// Adds a device name to the room, in lower case. A name that the room
    /// has already is refused.
    pub fn try_add_device(&mut self, name: &str) -> (added: CustomResult<()>)
        ensures
            final(self)@.name == old(self)@.name,
            final(self)@.devices.no_duplicates(),
            old(self)@.devices.contains(lowercase(name@)) ==> {
                &&& added matches Err(error)
                &&& error@ == CustomErrorView::AddDeviceError
                &&& final(self)@ == old(self)@
            },
            !old(self)@.devices.contains(lowercase(name@)) ==> {
                &&& added is Ok
                &&& final(self)@.devices == old(self)@.devices.push(lowercase(name@))
            },
    {
        proof {
            use_type_invariant(&*self);
        }
        let folded = to_lowercase(name);
        match position_of(&self.devices, folded.as_str()) {
            Some(_) => Err(CustomError::AddDeviceError),
            None => {
                // The list is changed outside the room, so that the room
                // never holds a list with a name twice.
                let mut devices: Vec<String> = Vec::new();
                core::mem::swap(&mut self.devices, &mut devices);
                devices.push(folded);
                assert(texts_of(devices@) =~= old(self)@.devices.push(lowercase(name@)));
                self.devices = devices;
                Ok(())
            },
        }
    }

    /// Adds a device name to the room, in lower case, unless the room has it
    /// already.
    pub fn add_device(&mut self, name: &str)
        ensures
            final(self)@.name == old(self)@.name,
            final(self)@.devices.no_duplicates(),
            old(self)@.devices.contains(lowercase(name@)) ==> final(self)@ == old(self)@,
            !old(self)@.devices.contains(lowercase(name@)) ==> final(self)@.devices == old(
                self,
            )@.devices.push(lowercase(name@)),
    {
        let _ = self.try_add_device(name);
    }

    /// Removes a device name from the room, whatever its letter case: the
    /// name is looked for in lower case, as names are kept. A name that the
    /// room does not have is reported.
    pub fn try_remove_device(&mut self, name: &str) -> (removed: CustomResult<()>)
        ensures
            final(self)@.name == old(self)@.name,
            final(self)@.devices.no_duplicates(),
            !old(self)@.devices.contains(lowercase(name@)) ==> {
                &&& removed matches Err(error)
                &&& error@ == CustomErrorView::DeviceNotFound
                &&& final(self)@ == old(self)@
            },
            old(self)@.devices.contains(lowercase(name@)) ==> {
                &&& removed is Ok
                &&& final(self)@.devices == old(self)@.devices.remove(
                    old(self)@.devices.index_of(lowercase(name@)),
                )
                &&& !final(self)@.devices.contains(lowercase(name@))
            },
    {
        proof {
            use_type_invariant(&*self);
        }
        let folded = to_lowercase(name);
        match position_of(&self.devices, folded.as_str()) {
            None => Err(CustomError::DeviceNotFound),
            Some(at) => {
                // The list is changed outside the room, so that the room
                // never holds a list with a name twice.
                let mut devices: Vec<String> = Vec::new();
                core::mem::swap(&mut self.devices, &mut devices);
                let _ = devices.remove(at);
                proof {
                    let before = old(self)@.devices;
                    assert(before[at as int] == folded@);
                    assert(before.index_of(folded@) == at);
                    assert(texts_of(devices@) =~= before.remove(at as int));
                    lemma_removed_name_is_gone(before, folded@);
                }
                self.devices = devices;
                Ok(())
            },
        }
    }

    /// The name of the room, as it was given.
    pub fn get_name(&self) -> (name: &str)
        ensures
            name@ == self@.name,
    {
        self.name.as_str()
    }
}

/// Of two device names that differ in letter case at most, a room takes
/// one: once the first has been added, the second is among the names that
/// are refused.
pub proof fn lemma_same_device_name_added_once(
    devices: Seq<Seq<char>>,
    first: Seq<char>,
    second: Seq<char>,
)
    requires
        same_name(first, second),
    ensures
        devices.contains(lowercase(first)) == devices.contains(lowercase(second)),
        devices.push(lowercase(first)).contains(lowercase(second)),
{
    let after = devices.push(lowercase(first));
    assert(after[after.len() - 1] == lowercase(second));
}

/// A name that is taken out of a list without duplicates is in the list no
/// more, and the other names stay, in their order.
pub proof fn lemma_removed_name_is_gone(names: Seq<Seq<char>>, name: Seq<char>)
    requires
        names.no_duplicates(),
        names.contains(name),
    ensures
        !names.remove(names.index_of(name)).contains(name),
        names.remove(names.index_of(name)).no_duplicates(),
        forall|other: Seq<char>|
            other != name ==> names.remove(names.index_of(name)).contains(other) == names.contains(
                other,
            ),
{
    let at = names.index_of(name);
    let rest = names.remove(at);
    assert forall|i: int| 0 <= i < rest.len() implies #[trigger] rest[i] == names[if i < at {
        i
    } else {
        i + 1
    }] by {}
    assert forall|other: Seq<char>| other != name && names.contains(other) implies rest.contains(
        other,
    ) by {
        let i = names.index_of(other);
        if i < at {
            assert(rest[i] == other);
        } else {
            assert(rest[i - 1] == other);
        }
    }
}

/// Removing undoes adding, under any spelling that differs in letter case
/// at most: where a room did not have a name and the name was added, taking
/// it out again leaves the names that the room had before, and a second
/// attempt to take it out finds nothing.
pub proof fn lemma_remove_undoes_add(devices: Seq<Seq<char>>, added: Seq<char>, removed: Seq<char>)
    requires
        devices.no_duplicates(),
        !devices.contains(lowercase(added)),
        same_name(added, removed),
    ensures
        devices.push(lowercase(added)).contains(lowercase(removed)),
        devices.push(lowercase(added)).remove(
            devices.push(lowercase(added)).index_of(lowercase(removed)),
        ) == devices,
        !devices.contains(lowercase(removed)),
{
    let name = lowercase(added);
    let after = devices.push(name);
    let last = devices.len() as int;
    assert(after[last] == name);
    assert forall|i: int| 0 <= i < last implies after[i] != name by {
        assert(after[i] == devices[i]);
    }
    assert(after.index_of(name) == last);
    assert(after.remove(last) =~= devices);
}

/// The rooms of a list of rooms, each with its texts as sequences of
/// characters.
pub open spec fn views_of(rooms: Seq<Room>) -> Seq<RoomView> {
    rooms.map_values(|room: Room| room@)
}

/// Whether no two rooms have the same name once letter case is set aside.
pub open spec fn rooms_differ(rooms: Seq<RoomView>) -> bool {
    forall|i: int, j: int|
        0 <= i < j < rooms.len() ==> !same_name(#[trigger] rooms[i].name, #[trigger] rooms[j].name)
}

/// Whether `rooms[at]` is the first room whose name is `name` once letter
/// case is set aside.
pub open spec fn is_first_folded_room(rooms: Seq<RoomView>, name: Seq<char>, at: int) -> bool {
    &&& 0 <= at < rooms.len()
    &&& same_name(rooms[at].name, name)
    &&& forall|before: int| 0 <= before < at ==> !same_name(#[trigger] rooms[before].name, name)
}

/// Whether some room has the name `name` once letter case is set aside.
pub open spec fn has_folded_room(rooms: Seq<RoomView>, name: Seq<char>) -> bool {
    exists|at: int| 0 <= at < rooms.len() && same_name(#[trigger] rooms[at].name, name)
}

/// Where the first room is whose name is `name` once letter case is set
/// aside.
pub open spec fn first_folded_room(rooms: Seq<RoomView>, name: Seq<char>) -> int {
    choose|at: int| is_first_folded_room(rooms, name, at)
}

/// Whether `rooms[at]` is the first room named exactly `name`.
pub open spec fn is_first_named_room(rooms: Seq<RoomView>, name: Seq<char>, at: int) -> bool {
    &&& 0 <= at < rooms.len()
    &&& rooms[at].name == name
    &&& forall|before: int| 0 <= before < at ==> #[trigger] rooms[before].name != name
}

/// Whether some room is named exactly `name`.
pub open spec fn has_named_room(rooms: Seq<RoomView>, name: Seq<char>) -> bool {
    exists|at: int| 0 <= at < rooms.len() && #[trigger] rooms[at].name == name
}

/// Where the first room is that is named exactly `name`.
pub open spec fn first_named_room(rooms: Seq<RoomView>, name: Seq<char>) -> int {
    choose|at: int| is_first_named_room(rooms, name, at)
}

proof fn lemma_folded_room_has_a_first(rooms: Seq<RoomView>, name: Seq<char>, at: int)
    requires
        0 <= at < rooms.len(),
        same_name(rooms[at].name, name),
    ensures
        exists|first: int| is_first_folded_room(rooms, name, first),
    decreases at,
{
    if exists|before: int| 0 <= before < at && same_name(#[trigger] rooms[before].name, name) {
        let before = choose|before: int|
            0 <= before < at && same_name(#[trigger] rooms[before].name, name);
        lemma_folded_room_has_a_first(rooms, name, before);
    } else {
        assert(is_first_folded_room(rooms, name, at));
    }
}

/// Where some room has the name `name` once letter case is set aside,
/// [`first_folded_room`] is where the first of them is: no room before it
/// has such a name, and no other place is the first.
pub proof fn lemma_first_folded_room_is_first(rooms: Seq<RoomView>, name: Seq<char>)
    requires
        has_folded_room(rooms, name),
    ensures
        is_first_folded_room(rooms, name, first_folded_room(rooms, name)),
        forall|at: int|
            is_first_folded_room(rooms, name, at) ==> at == first_folded_room(rooms, name),
{
    let at = choose|at: int| 0 <= at < rooms.len() && same_name(#[trigger] rooms[at].name, name);
    lemma_folded_room_has_a_first(rooms, name, at);
}

proof fn lemma_named_room_has_a_first(rooms: Seq<RoomView>, name: Seq<char>, at: int)
    requires
        0 <= at < rooms.len(),
        rooms[at].name == name,
    ensures
        exists|first: int| is_first_named_room(rooms, name, first),
    decreases at,
{
    if exists|before: int| 0 <= before < at && #[trigger] rooms[before].name == name {
        let before = choose|before: int| 0 <= before < at && #[trigger] rooms[before].name == name;
        lemma_named_room_has_a_first(rooms, name, before);
    } else {
        assert(is_first_named_room(rooms, name, at));
    }
}

/// Where some room is named exactly `name`, [`first_named_room`] is where
/// the first of them is: no room before it has that name, and no other
/// place is the first.
pub proof fn lemma_first_named_room_is_first(rooms: Seq<RoomView>, name: Seq<char>)
    requires
        has_named_room(rooms, name),
    ensures
        is_first_named_room(rooms, name, first_named_room(rooms, name)),
        forall|at: int| is_first_named_room(rooms, name, at) ==> at == first_named_room(rooms, name),
{
    let at = choose|at: int| 0 <= at < rooms.len() && #[trigger] rooms[at].name == name;
    lemma_named_room_has_a_first(rooms, name, at);
}

/// The rooms after the one at `at` was taken out: the last room stands in
/// its place.
pub open spec fn without_room(rooms: Seq<RoomView>, at: int) -> Seq<RoomView> {
    rooms.update(at, rooms.last()).drop_last()
}

/// The house: its rooms, in the order in which they stand. No two rooms have
/// the same name once letter case is set aside.
#[derive(Debug)]
pub struct SmartHouse {
    rooms: Vec<Room>,
}

impl View for SmartHouse {
    type V = Seq<RoomView>;

    closed spec fn view(&self) -> Seq<RoomView> {
        views_of(self.rooms@)
    }
}

impl Default for SmartHouse {
    /// A house without rooms.
    fn default() -> (house: SmartHouse)
        ensures
            house@ == Seq::<RoomView>::empty(),
    {
        SmartHouse::new()
    }
}

fn find_folded_room(rooms: &Vec<Room>, name: &str) -> (found: Option<usize>)
    ensures
        found is Some <==> has_folded_room(views_of(rooms@), name@),
        found matches Some(at) ==> at == first_folded_room(views_of(rooms@), name@)
            && is_first_folded_room(views_of(rooms@), name@, at as int),
{
    let folded = to_lowercase(name);
    let mut at: usize = 0;
    while at < rooms.len()
        invariant
            at <= rooms.len(),
            folded@ == lowercase(name@),
            forall|before: int|
                0 <= before < at ==> !same_name(#[trigger] views_of(rooms@)[before].name, name@),
        decreases rooms.len() - at,
    {
        let own = to_lowercase(rooms[at].name.as_str());
        if text_eq(own.as_str(), folded.as_str()) {
            assert(is_first_folded_room(views_of(rooms@), name@, at as int));
            return Some(at);
        }
        at += 1;
    }
    None
}

fn find_named_room(rooms: &Vec<Room>, name: &str) -> (found: Option<usize>)
    ensures
        found is Some <==> has_named_room(views_of(rooms@), name@),
        found matches Some(at) ==> at == first_named_room(views_of(rooms@), name@)
            && is_first_named_room(views_of(rooms@), name@, at as int),
{
    let mut at: usize = 0;
    while at < rooms.len()
        invariant
            at <= rooms.len(),
            forall|before: int| 0 <= before < at ==> #[trigger] views_of(rooms@)[before].name != name@,
        decreases rooms.len() - at,
    {
        if text_eq(rooms[at].name.as_str(), name) {
            assert(is_first_named_room(views_of(rooms@), name@, at as int));
            return Some(at);
        }
        at += 1;
    }
    None
}

impl SmartHouse {
    #[verifier::type_invariant]
    spec fn well_formed(self) -> bool {
        rooms_differ(self@)
    }

    /// A house without rooms.
    pub fn new() -> (house: SmartHouse)
        ensures
            house@ == Seq::<RoomView>::empty(),
    {
        let house = SmartHouse { rooms: Vec::new() };
        assert(house@ =~= Seq::<RoomView>::empty());
        house
    }

    /// The names of the rooms, in the order in which the rooms stand.
    pub fn get_rooms(&self) -> (names: Vec<&str>)
        ensures
            names.len() == self@.len(),
            forall|i: int| 0 <= i < names.len() ==> names[i]@ == #[trigger] self@[i].name,
    {
        let mut names: Vec<&str> = Vec::new();
        let mut at: usize = 0;
        while at < self.rooms.len()
            invariant
                at <= self.rooms.len(),
                names.len() == at,
                forall|i: int| 0 <= i < at ==> names[i]@ == #[trigger] self@[i].name,
            decreases self.rooms.len() - at,
        {
            names.push(self.rooms[at].name.as_str());
            at += 1;
        }
        names
    }

    /// Adds a room. A room whose name differs from that of a room of the
    /// house in letter case at most is refused.
    pub fn try_add_room(&mut self, room: Room) -> (added: CustomResult<()>)
        ensures
            rooms_differ(final(self)@),
            has_folded_room(old(self)@, room@.name) ==> {
                &&& added matches Err(error)
                &&& error@ == CustomErrorView::AddRoomError
                &&& final(self)@ == old(self)@
            },
            !has_folded_room(old(self)@, room@.name) ==> {
                &&& added is Ok
                &&& final(self)@ == old(self)@.push(room@)
            },
    {
        proof {
            use_type_invariant(&*self);
        }
        match find_folded_room(&self.rooms, room.name.as_str()) {
            Some(_) => Err(CustomError::AddRoomError),
            None => {
                // The list is changed outside the house, so that the house
                // never holds two rooms of one name.
                let mut rooms: Vec<Room> = Vec::new();
                core::mem::swap(&mut self.rooms, &mut rooms);
                rooms.push(room);
                assert(views_of(rooms@) =~= old(self)@.push(room@));
                self.rooms = rooms;
                Ok(())
            },
        }
    }

    /// Adds a room, unless the house has a room whose name differs from its
    /// name in letter case at most, and tells whether it did.
    pub fn add_room(&mut self, room: Room) -> (added: bool)
        ensures
            rooms_differ(final(self)@),
            added == !has_folded_room(old(self)@, room@.name),
            added ==> final(self)@ == old(self)@.push(room@),
            !added ==> final(self)@ == old(self)@,
    {
        match self.try_add_room(room) {
            Ok(_) => true,
            Err(_) => false,
        }
    }

    /// The names of the devices of the room that is named exactly `room`, in
    /// the order in which they were added.
    pub fn get_devices(&self, room: &str) -> (names: CustomResult<Vec<&str>>)
        ensures
            !has_named_room(self@, room@) ==> {
                &&& names matches Err(error)
                &&& error@ == CustomErrorView::RoomNotFound
            },
            has_named_room(self@, room@) ==> {
                &&& names matches Ok(list)
                &&& list@.map_values(|name: &str| name@) == self@[first_named_room(
                    self@,
                    room@,
                )].devices
                &&& is_first_named_room(self@, room@, first_named_room(self@, room@))
            },
    {
        match find_named_room(&self.rooms, room) {
            None => Err(CustomError::RoomNotFound),
            Some(at) => {
                let devices = &self.rooms[at].devices;
                let mut names: Vec<&str> = Vec::new();
                let mut next: usize = 0;
                while next < devices.len()
                    invariant
                        next <= devices.len(),
                        names.len() == next,
                        forall|i: int| 0 <= i < next ==> names[i]@ == #[trigger] devices[i]@,
                    decreases devices.len() - next,
                {
                    names.push(devices[next].as_str());
                    next += 1;
                }
                assert(names@.map_values(|name: &str| name@) =~= self@[at as int].devices);
                Ok(names)
            },
        }
    }

    /// Adds a device name to the room whose name is `room` once letter case
    /// is set aside. A missing room, and a name that the room has already,
    /// are refused alike.
    pub fn try_add_device(&mut self, room: &str, device: &str) -> (added: CustomResult<()>)
        ensures
            rooms_differ(final(self)@),
            adding_refused(old(self)@, room@, device@) ==> {
                &&& added matches Err(error)
                &&& error@ == CustomErrorView::AddDeviceError
                &&& final(self)@ == old(self)@
            },
            !adding_refused(old(self)@, room@, device@) ==> {
                &&& added is Ok
                &&& final(self)@ == with_device_name(old(self)@, room@, device@)
            },
            has_folded_room(old(self)@, room@) ==> is_first_folded_room(
                old(self)@,
                room@,
                first_folded_room(old(self)@, room@),
            ),
    {
        proof {
            use_type_invariant(&*self);
        }
        match find_folded_room(&self.rooms, room) {
            None => Err(CustomError::AddDeviceError),
            Some(at) => {
                let mut rooms: Vec<Room> = Vec::new();
                core::mem::swap(&mut self.rooms, &mut rooms);
                let added = rooms[at].try_add_device(device);
                proof {
                    let before = old(self)@;
                    if added is Ok {
                        assert(views_of(rooms@) =~= with_device_name(before, room@, device@));
                    } else {
                        assert(views_of(rooms@) =~= before);
                    }
                }
                self.rooms = rooms;
                added
            },
        }
    }

    /// Removes a device name, whatever its letter case, from the room whose
    /// name is `room` once letter case is set aside. A missing room and a
    /// missing name are reported alike.
    pub fn try_remove_device(&mut self, room: &str, device: &str) -> (removed: CustomResult<()>)
        ensures
            rooms_differ(final(self)@),
            !keeps_device_name(old(self)@, room@, device@) ==> {
                &&& removed matches Err(error)
                &&& error@ == CustomErrorView::DeviceNotFound
                &&& final(self)@ == old(self)@
            },
            keeps_device_name(old(self)@, room@, device@) ==> {
                &&& removed is Ok
                &&& final(self)@ == without_device_name(old(self)@, room@, device@)
            },
            has_folded_room(old(self)@, room@) ==> is_first_folded_room(
                old(self)@,
                room@,
                first_folded_room(old(self)@, room@),
            ),
    {
        proof {
            use_type_invariant(&*self);
        }
        match find_folded_room(&self.rooms, room) {
            None => Err(CustomError::DeviceNotFound),
            Some(at) => {
                let mut rooms: Vec<Room> = Vec::new();
                core::mem::swap(&mut self.rooms, &mut rooms);
                let removed = rooms[at].try_remove_device(device);
                proof {
                    let before = old(self)@;
                    if removed is Ok {
                        assert(views_of(rooms@) =~= without_device_name(before, room@, device@));
                    } else {
                        assert(views_of(rooms@) =~= before);
                    }
                }
                self.rooms = rooms;
                removed
            },
        }
    }

    /// Removes the room that is named exactly `name`; the last room then
    /// stands in its place. A missing room is reported.
    pub fn try_remove_room(&mut self, name: &str) -> (removed: CustomResult<()>)
        ensures
            rooms_differ(final(self)@),
            !has_named_room(old(self)@, name@) ==> {
                &&& removed matches Err(error)
                &&& error@ == CustomErrorView::RoomNotFound
                &&& final(self)@ == old(self)@
            },
            has_named_room(old(self)@, name@) ==> {
                &&& removed is Ok
                &&& final(self)@ == without_room(old(self)@, first_named_room(old(self)@, name@))
                &&& is_first_named_room(old(self)@, name@, first_named_room(old(self)@, name@))
            },
    {
        proof {
            use_type_invariant(&*self);
        }
        match find_named_room(&self.rooms, name) {
            None => Err(CustomError::RoomNotFound),
            Some(at) => {
                let mut rooms: Vec<Room> = Vec::new();
                core::mem::swap(&mut self.rooms, &mut rooms);
                let _ = rooms.swap_remove(at);
                assert(views_of(rooms@) =~= without_room(old(self)@, at as int));
                self.rooms = rooms;
                Ok(())
            },
        }
    }
}

/// Whether adding the device name `device` to `room` is refused: the house
/// has no such room, or the room has the name already.
pub open spec fn adding_refused(rooms: Seq<RoomView>, room: Seq<char>, device: Seq<char>) -> bool {
    !has_folded_room(rooms, room) || rooms[first_folded_room(rooms, room)].devices.contains(
        lowercase(device),
    )
}

/// The rooms after the device name `device` was added to `room`, in lower
/// case.
pub open spec fn with_device_name(rooms: Seq<RoomView>, room: Seq<char>, device: Seq<char>) -> Seq<
    RoomView,
> {
    let at = first_folded_room(rooms, room);
    rooms.update(
        at,
        RoomView { name: rooms[at].name, devices: rooms[at].devices.push(lowercase(device)) },
    )
}

/// Whether `room` is a room of the house that has the device name `device`,
/// letter case set aside.
pub open spec fn keeps_device_name(rooms: Seq<RoomView>, room: Seq<char>, device: Seq<char>)
    -> bool {
    has_folded_room(rooms, room) && rooms[first_folded_room(rooms, room)].devices.contains(
        lowercase(device),
    )
}

/// The rooms after the device name `device` was removed from `room`, where
/// it was kept in lower case.
pub open spec fn without_device_name(rooms: Seq<RoomView>, room: Seq<char>, device: Seq<char>)
    -> Seq<RoomView> {
    let at = first_folded_room(rooms, room);
    rooms.update(
        at,
        RoomView {
            name: rooms[at].name,
            devices: rooms[at].devices.remove(rooms[at].devices.index_of(lowercase(device))),
        },
    )
}

} // verus!
