//! The devices of one room: how a device is found among them, added to
//! them, described, and made to carry out a command.

use vstd::prelude::*;

use crate::device_info_provider::{lookup_view, DeviceInfo, DeviceInfoView};
use crate::error::{CustomError, CustomErrorView};
use crate::house::CustomResult;
use crate::smart_device::command::{answer_view, CommandData, ExecutionResult};
use crate::smart_device::{DeviceCommand, Executable, ExecutionResultView, SmartDevice};
use crate::text::{lowercase, same_name, text_eq, to_lowercase};

verus! {

/// Whether `devices[at]` is the first device whose name in lower case is
/// `folded`.
pub open spec fn is_first_folded(devices: Seq<SmartDevice>, folded: Seq<char>, at: int) -> bool {
    &&& 0 <= at < devices.len()
    &&& lowercase(devices[at].name()) == folded
    &&& forall|before: int|
        0 <= before < at ==> lowercase(#[trigger] devices[before].name()) != folded
}

/// Whether some device has a name that is `folded` in lower case.
pub open spec fn has_folded(devices: Seq<SmartDevice>, folded: Seq<char>) -> bool {
    exists|at: int| 0 <= at < devices.len() && lowercase(#[trigger] devices[at].name()) == folded
}

/// Where the first device is whose name in lower case is `folded`.
pub open spec fn first_folded(devices: Seq<SmartDevice>, folded: Seq<char>) -> int {
    choose|at: int| is_first_folded(devices, folded, at)
}

/// Whether `devices[at]` is the first device named exactly `name`.
pub open spec fn is_first_named(devices: Seq<SmartDevice>, name: Seq<char>, at: int) -> bool {
    &&& 0 <= at < devices.len()
    &&& devices[at].name() == name
    &&& forall|before: int| 0 <= before < at ==> #[trigger] devices[before].name() != name
}

/// Whether some device is named exactly `name`.
pub open spec fn has_named(devices: Seq<SmartDevice>, name: Seq<char>) -> bool {
    exists|at: int| 0 <= at < devices.len() && #[trigger] devices[at].name() == name
}

/// Where the first device is that is named exactly `name`.
pub open spec fn first_named(devices: Seq<SmartDevice>, name: Seq<char>) -> int {
    choose|at: int| is_first_named(devices, name, at)
}

proof fn lemma_folded_has_a_first(devices: Seq<SmartDevice>, folded: Seq<char>, at: int)
    requires
        0 <= at < devices.len(),
        lowercase(devices[at].name()) == folded,
    ensures
        exists|first: int| is_first_folded(devices, folded, first),
    decreases at,
{
    if exists|before: int| 0 <= before < at && lowercase(#[trigger] devices[before].name()) == folded {
        let before = choose|before: int|
            0 <= before < at && lowercase(#[trigger] devices[before].name()) == folded;
        lemma_folded_has_a_first(devices, folded, before);
    } else {
        assert(is_first_folded(devices, folded, at));
    }
}

/// Where some device has a name that is `folded` in lower case,
/// [`first_folded`] is where the first of them is: no device before it has
/// such a name, and no other place is the first.
pub proof fn lemma_first_folded_is_first(devices: Seq<SmartDevice>, folded: Seq<char>)
    requires
        has_folded(devices, folded),
    ensures
        is_first_folded(devices, folded, first_folded(devices, folded)),
        forall|at: int| is_first_folded(devices, folded, at) ==> at == first_folded(devices, folded),
{
    let at = choose|at: int|
        0 <= at < devices.len() && lowercase(#[trigger] devices[at].name()) == folded;
    lemma_folded_has_a_first(devices, folded, at);
}

proof fn lemma_named_has_a_first(devices: Seq<SmartDevice>, name: Seq<char>, at: int)
    requires
        0 <= at < devices.len(),
        devices[at].name() == name,
    ensures
        exists|first: int| is_first_named(devices, name, first),
    decreases at,
{
    if exists|before: int| 0 <= before < at && #[trigger] devices[before].name() == name {
        let before = choose|before: int| 0 <= before < at && #[trigger] devices[before].name() == name;
        lemma_named_has_a_first(devices, name, before);
    } else {
        assert(is_first_named(devices, name, at));
    }
}

/// Where some device is named exactly `name`, [`first_named`] is where the
/// first of them is: no device before it has that name, and no other place
/// is the first.
pub proof fn lemma_first_named_is_first(devices: Seq<SmartDevice>, name: Seq<char>)
    requires
        has_named(devices, name),
    ensures
        is_first_named(devices, name, first_named(devices, name)),
        forall|at: int| is_first_named(devices, name, at) ==> at == first_named(devices, name),
{
    let at = choose|at: int| 0 <= at < devices.len() && #[trigger] devices[at].name() == name;
    lemma_named_has_a_first(devices, name, at);
}

/// Whether no two devices have the same name once letter case is set aside.
pub open spec fn names_unique(devices: Seq<SmartDevice>) -> bool {
    forall|i: int, j: int|
        0 <= i < j < devices.len() ==> !same_name(
            #[trigger] devices[i].name(),
            #[trigger] devices[j].name(),
        )
}

/// What looking up `device` among `devices` gives: what is told of the
/// first device of that name, letter case set aside.
pub open spec fn room_lookup(devices: Seq<SmartDevice>, device: Seq<char>) -> Result<
    DeviceInfoView,
    CustomErrorView,
> {
    if has_folded(devices, lowercase(device)) {
        Ok(devices[first_folded(devices, lowercase(device))].info())
    } else {
        Err(CustomErrorView::DeviceNotFound)
    }
}

/// What a device's answer becomes on its way out of the registry: a failure
/// of the device is wrapped, with its message as the detail.
pub open spec fn passed_on(answer: Result<ExecutionResultView, CustomErrorView>) -> Result<
    ExecutionResultView,
    CustomErrorView,
> {
    match answer {
        Ok(result) => Ok(result),
        Err(error) => Err(CustomErrorView::DeviceFailure(error.message())),
    }
}

/// The devices after the first one named exactly `name` has carried out
/// `command`.
pub open spec fn after_command(devices: Seq<SmartDevice>, name: Seq<char>, command: DeviceCommand)
    -> Seq<SmartDevice> {
    let at = first_named(devices, name);
    devices.update(at, devices[at].after(command))
}

/// What the first device named exactly `name` answers to `command`, as the
/// registry passes it on.
pub open spec fn answer_to(devices: Seq<SmartDevice>, name: Seq<char>, command: DeviceCommand)
    -> Result<ExecutionResultView, CustomErrorView> {
    passed_on(devices[first_named(devices, name)].answer(command))
}

/// Finds the first device whose name in lower case is `folded`.
pub fn find_folded(devices: &Vec<SmartDevice>, folded: &str) -> (found: Option<usize>)
    ensures
        found is Some <==> has_folded(devices@, folded@),
        found matches Some(at) ==> at == first_folded(devices@, folded@) && is_first_folded(
            devices@,
            folded@,
            at as int,
        ),
{
    let mut at: usize = 0;
    while at < devices.len()
        invariant
            at <= devices.len(),
            forall|before: int|
                0 <= before < at ==> lowercase(#[trigger] devices@[before].name()) != folded@,
        decreases devices.len() - at,
    {
        let name = devices[at].get_name();
        let lower = to_lowercase(name.as_str());
        if text_eq(lower.as_str(), folded) {
            assert(is_first_folded(devices@, folded@, at as int));
            return Some(at);
        }
        at += 1;
    }
    None
}

/// Finds the first device that is named exactly `name`.
pub fn find_named(devices: &Vec<SmartDevice>, name: &str) -> (found: Option<usize>)
    ensures
        found is Some <==> has_named(devices@, name@),
        found matches Some(at) ==> at == first_named(devices@, name@) && is_first_named(
            devices@,
            name@,
            at as int,
        ),
{
    let mut at: usize = 0;
    while at < devices.len()
        invariant
            at <= devices.len(),
            forall|before: int| 0 <= before < at ==> #[trigger] devices@[before].name() != name@,
        decreases devices.len() - at,
    {
        let own = devices[at].get_name();
        if text_eq(own.as_str(), name) {
            assert(is_first_named(devices@, name@, at as int));
            return Some(at);
        }
        at += 1;
    }
    None
}

/// Adds `device` after the devices of a room. A device whose name differs
/// from that of one of them in letter case at most is refused, and the
/// devices stay as they were.
pub fn add_to_room(devices: &mut Vec<SmartDevice>, device: SmartDevice) -> (added: CustomResult<()>)
    ensures
        names_unique(old(devices)@) ==> names_unique(final(devices)@),
        has_folded(old(devices)@, lowercase(device.name())) ==> {
            &&& added matches Err(error)
            &&& error@ == CustomErrorView::AddDeviceError
            &&& final(devices)@ == old(devices)@
        },
        !has_folded(old(devices)@, lowercase(device.name())) ==> {
            &&& added is Ok
            &&& final(devices)@ == old(devices)@.push(device)
        },
{
    let name = device.get_name();
    let folded = to_lowercase(name.as_str());
    match find_folded(devices, folded.as_str()) {
        Some(_) => Err(CustomError::AddDeviceError),
        None => {
            devices.push(device);
            Ok(())
        },
    }
}

/// Looks up `device` among the devices of a room, letter case set aside.
pub fn info_in_room(devices: &Vec<SmartDevice>, device: &str) -> (found: CustomResult<DeviceInfo>)
    ensures
        lookup_view(found) == room_lookup(devices@, device@),
        found is Ok <==> has_folded(devices@, lowercase(device@)),
        found is Ok ==> is_first_folded(
            devices@,
            lowercase(device@),
            first_folded(devices@, lowercase(device@)),
        ),
{
    let folded = to_lowercase(device);
    match find_folded(devices, folded.as_str()) {
        None => Err(CustomError::DeviceNotFound),
        Some(at) => Ok(devices[at].describe()),
    }
}

/// Has the first device named exactly as the command says carry out the
/// command, and passes its answer on. Where no device has that name there is
/// no answer, and the devices stay as they were.
pub fn execute_in_room(devices: &mut Vec<SmartDevice>, cmd: &CommandData) -> (answer: Option<
    CustomResult<ExecutionResult>,
>)
    ensures
        names_unique(old(devices)@) ==> names_unique(final(devices)@),
        !has_named(old(devices)@, cmd.device_name@) ==> answer is None && final(devices)@ == old(
            devices,
        )@,
        has_named(old(devices)@, cmd.device_name@) ==> {
            &&& answer matches Some(given)
            &&& answer_view(given) == answer_to(old(devices)@, cmd.device_name@, cmd.data)
            &&& final(devices)@ == after_command(old(devices)@, cmd.device_name@, cmd.data)
            &&& is_first_named(
                old(devices)@,
                cmd.device_name@,
                first_named(old(devices)@, cmd.device_name@),
            )
        },
{
    match find_named(devices, cmd.device_name.as_str()) {
        None => None,
        Some(at) => {
            proof {
                lemma_command_keeps_names(devices@, at as int, cmd.data);
            }
            match devices[at].execute_command(cmd.data) {
                Ok(result) => Some(Ok(result)),
                Err(error) => Some(Err(CustomError::DeviceFailure(error.message()))),
            }
        },
    }
}

/// A command changes no name: the devices of a room still differ in more
/// than letter case after one of them has carried out a command.
pub proof fn lemma_command_keeps_names(devices: Seq<SmartDevice>, at: int, command: DeviceCommand)
    requires
        0 <= at < devices.len(),
    ensures
        devices[at].after(command).name() == devices[at].name(),
        names_unique(devices) ==> names_unique(devices.update(at, devices[at].after(command))),
{
    let changed = devices.update(at, devices[at].after(command));
    assert forall|i: int| 0 <= i < devices.len() implies #[trigger] changed[i].name()
        == devices[i].name() by {}
}

} // verus!
