//! The map that keeps the rooms of the registry, and the calls that the
//! registry makes into it. What is said of these calls is taken from the
//! map's documentation and is not proved here.

use dashmap::DashMap;
use vstd::prelude::*;

use crate::device_info_provider::devices::{info_in_room, room_lookup};
use crate::device_info_provider::{lookup_view, DeviceInfo};
use crate::house::CustomResult;
use crate::smart_device::SmartDevice;

verus! {

/// `dashmap::DashMap`, taken as it is. Nothing is known of what is inside a
/// map but what [`rooms_of`] names.
#[verifier::external_type_specification]
#[verifier::external_body]
#[verifier::reject_recursive_types(K)]
#[verifier::reject_recursive_types(V)]
#[verifier::reject_recursive_types(S)]
pub struct ExDashMap<K, V, S>(DashMap<K, V, S>);

/// The rooms that a map holds: for each key, the devices under it, in the
/// order in which they stand in the list.
pub uninterp spec fn rooms_of(store: &DashMap<String, Vec<SmartDevice>>) -> Map<
    Seq<char>,
    Seq<SmartDevice>,
>;

/// The rooms of a registry: for each room, under its name in lower case, the
/// devices in it, in their order.
pub type Rooms = Map<Seq<char>, Seq<SmartDevice>>;

/// The rooms of a registry that holds nothing.
pub open spec fn no_rooms() -> Rooms {
    Map::empty()
}

/// Whether `keys` names every room of `rooms`, each once.
pub open spec fn lists_rooms(keys: Seq<String>, rooms: Rooms) -> bool {
    &&& forall|key: Seq<char>|
        rooms.contains_key(key) <==> exists|i: int| 0 <= i < keys.len() && #[trigger] keys[i]@ == key
    &&& forall|i: int, j: int| 0 <= i < j < keys.len() ==> keys[i]@ != keys[j]@
}

/// `DashMap::new`: a map that holds nothing.
#[verifier::external_body]
pub(crate) fn empty_store() -> (store: DashMap<String, Vec<SmartDevice>>)
    ensures
        rooms_of(&store) == no_rooms(),
{
    DashMap::new()
}

/// `DashMap::iter`, each entry turned into a copy of its key: every key of
/// the map, each once. The order is that in which the map is walked, and
/// nothing is said of it.
#[verifier::external_body]
pub(crate) fn room_keys(store: &DashMap<String, Vec<SmartDevice>>) -> (keys: Vec<String>)
    ensures
        lists_rooms(keys@, rooms_of(store)),
{
    store.iter().map(|room| room.key().clone()).collect()
}

/// `DashMap::remove`: takes the entry under `key` out of the map and hands
/// its value over, or hands over nothing where the map has no such entry.
/// The other entries stay. The call hashes and compares keys and drops the
/// entry's key, none of which panics, so it does not unwind.
#[verifier::external_body]
pub(crate) fn take_room(store: &mut DashMap<String, Vec<SmartDevice>>, key: &str) -> (room: Option<
    Vec<SmartDevice>,
>)
    ensures
        rooms_of(final(store)) == rooms_of(old(store)).remove(key@),
        room is Some <==> rooms_of(old(store)).contains_key(key@),
        room matches Some(devices) ==> devices@ == rooms_of(old(store))[key@],
    no_unwind
{
    store.remove(key).map(|entry| entry.1)
}

/// `DashMap::insert`: puts `devices` under `key`, in place of what was there
/// under it. The other entries stay. The call hashes and compares keys,
/// may let the map grow, and drops what it replaces; short of a map too
/// large for the machine's memory none of this panics, so the call does not
/// unwind.
#[verifier::external_body]
pub(crate) fn put_room(
    store: &mut DashMap<String, Vec<SmartDevice>>,
    key: String,
    devices: Vec<SmartDevice>,
)
    ensures
        rooms_of(final(store)) == rooms_of(old(store)).insert(key@, devices@),
    no_unwind
{
    store.insert(key, devices);
}

/// `DashMap::view`: looks for the entry under `key` and, where the map has
/// one, hands its value to the lookup and gives back what the lookup gave.
/// Where the map has no such entry, nothing is looked up and nothing given
/// back. The lookup is [`info_in_room`], whose own contract says what it
/// gives for the devices that it is handed.
#[verifier::external_body]
pub(crate) fn look_in_room(store: &DashMap<String, Vec<SmartDevice>>, key: &str, device: &str) -> (found:
    Option<CustomResult<DeviceInfo>>)
    ensures
        found is Some <==> rooms_of(store).contains_key(key@),
        found matches Some(told) ==> lookup_view(told) == room_lookup(
            rooms_of(store)[key@],
            device@,
        ),
{
    store.view(key, |_, devices| info_in_room(devices, device))
}

} // verus!
