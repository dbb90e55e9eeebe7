//! The status report: what a device store tells of each device that the
//! house has in a room.

use vstd::prelude::*;
use vstd::string::*;

use crate::device_info_provider::{lookup_view, DeviceInfo, DeviceInfoProvider, DeviceInfoView};
use crate::error::CustomErrorView;
use crate::house::{CustomResult, RoomView, SmartHouse};

verus! {

/// The text that `{:?}` gives for a [`DeviceInfo`] with these three texts.
pub uninterp spec fn info_text(kind: Seq<char>, name: Seq<char>, state: Seq<char>) -> Seq<char>;

/// `format!` of std with `{:?}`, on a `DeviceInfo`: the derived debug form
/// of the struct, with each of its three texts quoted and escaped as std
/// does for a string. The result depends on the three texts alone, and
/// [`info_text`] is the name of it; nothing else is claimed.
#[verifier::external_body]
fn debug_text(info: &DeviceInfo) -> (text: String)
    ensures
        text@ == info_text(info.kind@, info.name@, info.state@),
{
    format!("{:?}", info)
}

/// What the report says of a lookup: the debug form of what was found, or
/// the message of the failure.
pub open spec fn entry_text(found: Result<DeviceInfoView, CustomErrorView>) -> Seq<char> {
    match found {
        Ok(info) => info_text(info.kind, info.name, info.state),
        Err(error) => error.message(),
    }
}

/// One line of the report.
pub open spec fn line(room: Seq<char>, entry: Seq<char>) -> Seq<char> {
    "room: "@ + room + ", device: "@ + entry + "\n"@
}

/// The lines of the report for one room: one for each device name, in order.
pub open spec fn room_report<T: DeviceInfoProvider>(
    provider: &T,
    room: Seq<char>,
    devices: Seq<Seq<char>>,
) -> Seq<char>
    decreases devices.len(),
{
    if devices.len() == 0 {
        Seq::empty()
    } else {
        room_report(provider, room, devices.drop_last()) + line(
            room,
            entry_text(provider.info(room, devices.last())),
        )
    }
}

/// The report: the lines of each room, room after room.
pub open spec fn report<T: DeviceInfoProvider>(provider: &T, rooms: Seq<RoomView>) -> Seq<char>
    decreases rooms.len(),
{
    if rooms.len() == 0 {
        Seq::empty()
    } else {
        report(provider, rooms.drop_last()) + room_report(
            provider,
            rooms.last().name,
            rooms.last().devices,
        )
    }
}

/// A room without devices has no line, and a device that the store does
/// not tell of has a line with the failure's message: where the first of
/// two rooms has one device name and the second has none, and the store
/// fails on that name, the report is that one line.
pub proof fn lemma_report_of_missing_device<T: DeviceInfoProvider>(
    provider: &T,
    first: RoomView,
    second: RoomView,
    error: CustomErrorView,
)
    requires
        first.devices.len() == 1,
        second.devices.len() == 0,
        provider.info(first.name, first.devices[0]) == Err::<DeviceInfoView, CustomErrorView>(
            error,
        ),
    ensures
        report(provider, seq![first, second]) == line(first.name, error.message()),
{
    let rooms = seq![first, second];
    let head = rooms.drop_last();
    assert(head =~= seq![first]);
    assert(head.drop_last() =~= Seq::<RoomView>::empty());
    assert(first.devices.drop_last() =~= Seq::<Seq<char>>::empty());
    let none = Seq::<char>::empty();
    assert(room_report(provider, second.name, second.devices) == none);
    assert(room_report(provider, first.name, first.devices.drop_last()) == none);
    assert(room_report(provider, first.name, first.devices) == none + line(
        first.name,
        error.message(),
    ));
    assert(report(provider, head.drop_last()) == none);
    assert(report(provider, head) == none + room_report(provider, first.name, first.devices));
    assert(report(provider, rooms) =~= line(first.name, error.message()));
}

/// One line of the report: the room, and what is said of one of its devices.
pub fn report_line(room: &str, entry: &str) -> (text: String)
    ensures
        text@ == line(room@, entry@),
{
    let mut text = String::from_str("room: ");
    text.append(room);
    text.append(", device: ");
    text.append(entry);
    text.append("\n");
    text
}

/// What the report says of a lookup: the debug form of what was found, or
/// the message of the failure.
pub fn report_entry(found: &CustomResult<DeviceInfo>) -> (text: String)
    ensures
        text@ == entry_text(lookup_view(*found)),
{
    match found {
        Ok(info) => debug_text(info),
        Err(error) => error.message(),
    }
}

impl SmartHouse {
    /// The status report: for each room in order, and each device name of
    /// the room in order, one line with what `provider` tells of that device
    /// in that room, or with the message of the failure where it tells
    /// nothing. A room without devices has no line.
    pub fn get_report<T: DeviceInfoProvider>(&self, provider: T) -> (text: String)
        ensures
            text@ == report(&provider, self@),
    {
        let mut text = String::new();
        let mut at: usize = 0;
        assert(self@.take(0) =~= Seq::<RoomView>::empty());
        while at < self.rooms.len()
            invariant
                at <= self.rooms.len(),
                text@ == report(&provider, self@.take(at as int)),
            decreases self.rooms.len() - at,
        {
            let room = &self.rooms[at];
            let ghost start = text@;
            let ghost names = room@.devices;
            let mut next: usize = 0;
            assert(names.take(0) =~= Seq::<Seq<char>>::empty());
            while next < room.devices.len()
                invariant
                    next <= room.devices.len(),
                    names == room@.devices,
                    text@ == start + room_report(&provider, room@.name, names.take(next as int)),
                decreases room.devices.len() - next,
            {
                let device = &room.devices[next];
                let found = provider.get_device_info(room.name.as_str(), device.as_str());
                let entry = report_entry(&found);
                let line = report_line(room.name.as_str(), entry.as_str());
                text.append(line.as_str());
                proof {
                    let shown = names.take(next + 1);
                    assert(shown.drop_last() =~= names.take(next as int));
                    assert(shown.last() == device@);
                    assert(text@ =~= start + room_report(&provider, room@.name, shown));
                }
                next += 1;
            }
            proof {
                let seen = self@.take(at + 1);
                assert(seen.drop_last() =~= self@.take(at as int));
                assert(seen.last() == room@);
                assert(names.take(next as int) =~= names);
            }
            at += 1;
        }
        assert(self@.take(at as int) =~= self@);
        text
    }
}

} // verus!
