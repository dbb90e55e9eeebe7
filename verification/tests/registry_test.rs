use smart_house::device_info_provider::devices::{
    add_to_room, execute_in_room, find_folded, find_named, info_in_room,
};
use smart_house::{
    CommandData, CustomError, CustomResult, DeviceCommand, DeviceInfo, DeviceInfoProvider,
    ExecutionResult, PowerSocket, PowerSocketCommand, PowerSocketState, SmartDevice,
    SmartDeviceList, Temperature, Thermometer,
};

fn socket(name: &str) -> SmartDevice {
    SmartDevice::Socket(PowerSocket {
        name: name.to_owned(),
        state: PowerSocketState::NotPowered,
        description: "no desc".to_owned(),
        power_consumption: 0,
    })
}

fn thermometer(name: &str) -> SmartDevice {
    SmartDevice::Thermo(Thermometer {
        name: name.to_owned(),
        state: Temperature::Celsius(18000),
    })
}

fn command(name: &str, what: PowerSocketCommand) -> CommandData {
    CommandData {
        device_name: name.to_owned(),
        data: DeviceCommand::PowerSocket(what),
    }
}

fn hall() -> SmartDeviceList {
    let mut registry = SmartDeviceList::new();
    registry.add_device("hall", socket("socket1")).unwrap();
    registry.add_device("hall", thermometer("therm1")).unwrap();
    registry
}

fn state_of(registry: &SmartDeviceList, room: &str, device: &str) -> String {
    registry.get_device_info(room, device).unwrap().state
}

#[test]
fn names_that_differ_in_case_are_added_once() {
    let mut registry = SmartDeviceList::new();
    assert_eq!(registry.add_device("hall", socket("Socket1")), Ok(()));
    assert_eq!(
        registry.add_device("hall", socket("SOCKET1")),
        Err(CustomError::AddDeviceError)
    );
    assert_eq!(
        registry.add_device("hall", thermometer("socket1")),
        Err(CustomError::AddDeviceError)
    );
    assert_eq!(
        registry.add_device("HALL", socket("socket1")),
        Err(CustomError::AddDeviceError)
    );
    // the device that was added first is the one that is kept
    assert_eq!(registry.get_device_info("hall", "socket1").unwrap().name, "Socket1");
}

#[test]
fn same_name_in_another_room_is_added() {
    let mut registry = hall();
    assert_eq!(registry.add_device("kitchen", socket("socket1")), Ok(()));
    assert_eq!(registry.get_device_info("kitchen", "socket1").unwrap().kind, "SmartSocket");
    assert_eq!(registry.get_device_info("hall", "socket1").unwrap().kind, "SmartSocket");
}

#[test]
fn room_key_ignores_case() {
    let registry = hall();
    let info = registry.get_device_info("HALL", "socket1").unwrap();
    assert_eq!(info.kind, "SmartSocket");
    assert_eq!(info.name, "socket1");
    assert_eq!(info.state, "NotPowered");
    let info = registry.get_device_info("Hall", "therm1").unwrap();
    assert_eq!(info.kind, "SmartThermometer");
    assert_eq!(info.name, "therm1");
    assert_eq!(info.state, "Celsius(18000)");
}

#[test]
fn device_name_ignores_case_in_lookup() {
    let mut registry = SmartDeviceList::new();
    registry.add_device("Hall", socket("Socket1")).unwrap();
    assert_eq!(registry.get_device_info("hall", "socket1").unwrap().name, "Socket1");
    assert_eq!(registry.get_device_info("hall", "SOCKET1").unwrap().name, "Socket1");
    assert_eq!(registry.get_device_info("HALL", "Socket1").unwrap().name, "Socket1");
}

#[test]
fn lookup_misses_are_told_apart() {
    let registry = hall();
    assert_eq!(
        registry.get_device_info("kitchen", "socket1").unwrap_err(),
        CustomError::RoomNotFound
    );
    assert_eq!(
        registry.get_device_info("hall", "socket2").unwrap_err(),
        CustomError::DeviceNotFound
    );
    let empty = SmartDeviceList::new();
    assert_eq!(
        empty.get_device_info("hall", "socket1").unwrap_err(),
        CustomError::RoomNotFound
    );
    let fresh = SmartDeviceList::default();
    assert_eq!(
        fresh.get_device_info("", "").unwrap_err(),
        CustomError::RoomNotFound
    );
}

#[test]
fn refused_device_leaves_the_registry_alone() {
    let mut registry = hall();
    let mut other = PowerSocket {
        name: "SOCKET1".to_owned(),
        state: PowerSocketState::Powered(5),
        description: "other".to_owned(),
        power_consumption: 5,
    };
    other.turn_on();
    assert_eq!(
        registry.add_device("hall", SmartDevice::Socket(other)),
        Err(CustomError::AddDeviceError)
    );
    let info = registry.get_device_info("hall", "socket1").unwrap();
    assert_eq!(info.name, "socket1");
    assert_eq!(info.state, "NotPowered");
    assert_eq!(state_of(&registry, "hall", "therm1"), "Celsius(18000)");
}

#[test]
fn command_reaches_the_named_device() {
    let mut registry = hall();
    registry.add_device("kitchen", socket("kettle")).unwrap();
    registry.add_device("kitchen", socket("toaster")).unwrap();
    registry.add_device("bedroom", socket("lamp")).unwrap();

    let answer = registry
        .execute_command(command("toaster", PowerSocketCommand::TurnOn))
        .unwrap();
    assert!(matches!(
        answer,
        ExecutionResult::PowerSocket(PowerSocketState::Powered(220))
    ));
    assert_eq!(state_of(&registry, "kitchen", "toaster"), "Powered(220)");
    assert_eq!(state_of(&registry, "kitchen", "kettle"), "NotPowered");
    assert_eq!(state_of(&registry, "bedroom", "lamp"), "NotPowered");
    assert_eq!(state_of(&registry, "hall", "socket1"), "NotPowered");

    let answer = registry
        .execute_command(command("toaster", PowerSocketCommand::GetState))
        .unwrap();
    assert!(matches!(
        answer,
        ExecutionResult::PowerSocket(PowerSocketState::Powered(220))
    ));

    let answer = registry
        .execute_command(command("toaster", PowerSocketCommand::TurnOff))
        .unwrap();
    assert!(matches!(
        answer,
        ExecutionResult::PowerSocket(PowerSocketState::NotPowered)
    ));
    assert_eq!(state_of(&registry, "kitchen", "toaster"), "NotPowered");
}

#[test]
fn command_keeps_the_order_of_the_room() {
    let mut registry = SmartDeviceList::new();
    for name in ["a", "b", "c", "d"] {
        registry.add_device("room", socket(name)).unwrap();
    }
    registry
        .execute_command(command("b", PowerSocketCommand::TurnOn))
        .unwrap();
    registry
        .execute_command(command("d", PowerSocketCommand::TurnOn))
        .unwrap();
    assert_eq!(state_of(&registry, "room", "a"), "NotPowered");
    assert_eq!(state_of(&registry, "room", "b"), "Powered(220)");
    assert_eq!(state_of(&registry, "room", "c"), "NotPowered");
    assert_eq!(state_of(&registry, "room", "d"), "Powered(220)");
    // every name is still taken
    for name in ["a", "b", "c", "d"] {
        assert_eq!(
            registry.add_device("room", socket(name)),
            Err(CustomError::AddDeviceError)
        );
    }
}

#[test]
fn command_for_an_unknown_device_changes_nothing() {
    let mut registry = hall();
    registry
        .execute_command(command("socket1", PowerSocketCommand::TurnOn))
        .unwrap();
    let answer = registry.execute_command(command("socket9", PowerSocketCommand::TurnOff));
    assert_eq!(answer.unwrap_err(), CustomError::DeviceNotFound);
    assert_eq!(state_of(&registry, "hall", "socket1"), "Powered(220)");
    assert_eq!(state_of(&registry, "hall", "therm1"), "Celsius(18000)");
    assert_eq!(
        registry.get_device_info("hall", "socket9").unwrap_err(),
        CustomError::DeviceNotFound
    );

    let mut empty = SmartDeviceList::new();
    let answer = empty.execute_command(command("socket1", PowerSocketCommand::TurnOn));
    assert_eq!(answer.unwrap_err(), CustomError::DeviceNotFound);
    assert_eq!(
        empty.get_device_info("hall", "socket1").unwrap_err(),
        CustomError::RoomNotFound
    );
}

#[test]
fn command_names_a_device_exactly() {
    let mut registry = hall();
    let answer = registry.execute_command(command("Socket1", PowerSocketCommand::TurnOn));
    assert_eq!(answer.unwrap_err(), CustomError::DeviceNotFound);
    assert_eq!(state_of(&registry, "hall", "socket1"), "NotPowered");
}

#[test]
fn failure_of_a_device_comes_back_wrapped() {
    let mut registry = hall();
    let answer = registry.execute_command(command("therm1", PowerSocketCommand::TurnOn));
    let error = answer.unwrap_err();
    assert_eq!(
        error,
        CustomError::DeviceFailure(
            "Failed to execute command. Message: thermometer error".to_owned()
        )
    );
    assert_eq!(
        error.message(),
        "Error in device: Failed to execute command. Message: thermometer error"
    );
    assert_eq!(state_of(&registry, "hall", "therm1"), "Celsius(18000)");
}

#[test]
fn command_goes_to_one_device_of_a_name() {
    let mut registry = SmartDeviceList::new();
    registry.add_device("kitchen", socket("lamp")).unwrap();
    registry.add_device("bedroom", socket("lamp")).unwrap();
    registry
        .execute_command(command("lamp", PowerSocketCommand::TurnOn))
        .unwrap();
    let kitchen = state_of(&registry, "kitchen", "lamp");
    let bedroom = state_of(&registry, "bedroom", "lamp");
    let on = [&kitchen, &bedroom]
        .iter()
        .filter(|state| state.as_str() == "Powered(220)")
        .count();
    let off = [&kitchen, &bedroom]
        .iter()
        .filter(|state| state.as_str() == "NotPowered")
        .count();
    assert_eq!(on, 1);
    assert_eq!(off, 1);
}

#[test]
fn many_devices_are_all_added() {
    let mut registry = SmartDeviceList::new();
    let count = 64;
    for number in 0..count {
        assert_eq!(
            registry.add_device("hall", socket(&format!("socket{}", number))),
            Ok(())
        );
    }
    for number in 0..count {
        let info = registry
            .get_device_info("hall", &format!("socket{}", number))
            .unwrap();
        assert_eq!(info.name, format!("socket{}", number));
    }
    assert_eq!(
        registry.get_device_info("hall", "socket64").unwrap_err(),
        CustomError::DeviceNotFound
    );
}

#[test]
fn one_name_is_added_once_of_many_tries() {
    let mut registry = SmartDeviceList::new();
    let mut added = 0;
    for _ in 0..32 {
        if registry.add_device("hall", socket("socket")).is_ok() {
            added += 1;
        }
    }
    assert_eq!(added, 1);
}

#[test]
fn devices_of_a_room_are_found_by_name() {
    let devices = vec![socket("Lamp"), thermometer("Therm"), socket("lamp2")];
    assert_eq!(find_folded(&devices, "lamp"), Some(0));
    assert_eq!(find_folded(&devices, "therm"), Some(1));
    assert_eq!(find_folded(&devices, "Lamp"), None);
    assert_eq!(find_folded(&devices, "kettle"), None);
    assert_eq!(find_named(&devices, "Lamp"), Some(0));
    assert_eq!(find_named(&devices, "lamp"), None);
    assert_eq!(find_named(&devices, "lamp2"), Some(2));
    assert_eq!(find_named(&Vec::new(), "lamp"), None);
}

#[test]
fn room_takes_a_name_once() {
    let mut devices = Vec::new();
    assert_eq!(add_to_room(&mut devices, socket("Lamp")), Ok(()));
    assert_eq!(add_to_room(&mut devices, socket("kettle")), Ok(()));
    assert_eq!(
        add_to_room(&mut devices, thermometer("LAMP")),
        Err(CustomError::AddDeviceError)
    );
    assert_eq!(devices.len(), 2);
    assert_eq!(devices[0].get_name(), "Lamp");
    assert_eq!(devices[1].get_name(), "kettle");
    assert_eq!(info_in_room(&devices, "KETTLE").unwrap().name, "kettle");
    assert_eq!(
        info_in_room(&devices, "toaster").unwrap_err(),
        CustomError::DeviceNotFound
    );
}

#[test]
fn room_passes_a_command_to_the_first_of_a_name() {
    let mut devices = vec![socket("lamp"), socket("kettle")];
    let none = execute_in_room(&mut devices, &command("toaster", PowerSocketCommand::TurnOn));
    assert!(none.is_none());
    let answer = execute_in_room(&mut devices, &command("kettle", PowerSocketCommand::TurnOn));
    assert!(matches!(
        answer,
        Some(Ok(ExecutionResult::PowerSocket(PowerSocketState::Powered(220))))
    ));
    assert_eq!(devices[0].get_state(), "NotPowered");
    assert_eq!(devices[1].get_state(), "Powered(220)");
}

struct Fixed;

impl DeviceInfoProvider for Fixed {
    fn get_device_info(&self, room: &str, device: &str) -> CustomResult<DeviceInfo> {
        if room == "cellar" {
            Err(CustomError::Unknown)
        } else {
            Ok(DeviceInfo {
                kind: "Kind".to_owned(),
                name: device.to_owned(),
                state: format!("in \"{}\"", room),
            })
        }
    }
}

#[test]
fn provider_of_another_kind_can_be_asked() {
    let provider = Fixed;
    let info = provider.get_device_info("hall", "lamp").unwrap();
    assert_eq!(info.kind, "Kind");
    assert_eq!(info.name, "lamp");
    assert_eq!(info.state, "in \"hall\"");
    assert_eq!(
        provider.get_device_info("cellar", "lamp").unwrap_err(),
        CustomError::Unknown
    );
}
