use smart_house::house::report::{report_entry, report_line};
use smart_house::{
    CustomError, CustomResult, DeviceInfo, DeviceInfoProvider, PowerSocket, PowerSocketState,
    Room, SmartDevice, SmartDeviceList, SmartHouse, Temperature, Thermometer,
};

fn socket(name: &str) -> SmartDevice {
    SmartDevice::Socket(PowerSocket {
        name: name.to_owned(),
        state: PowerSocketState::NotPowered,
        description: "no desc".to_owned(),
        power_consumption: 0,
    })
}

fn thermometer(name: &str) -> SmartDevice {
    SmartDevice::Thermo(Thermometer {
        name: name.to_owned(),
        state: Temperature::Celsius(18000),
    })
}

fn house_of(rooms: &[(&str, &[&str])]) -> SmartHouse {
    let mut house = SmartHouse::new();
    for (room, devices) in rooms {
        house.try_add_room(Room::with_name(room)).unwrap();
        for device in devices.iter() {
            house.try_add_device(room, device).unwrap();
        }
    }
    house
}

#[test]
fn report_has_a_line_for_a_missing_device_and_none_for_an_empty_room() {
    let house = house_of(&[("A", &["x"]), ("B", &[])]);

    let mut registry = SmartDeviceList::new();
    registry.add_device("a", socket("y")).unwrap();
    registry.add_device("b", socket("x")).unwrap();
    assert_eq!(house.get_report(registry), "room: A, device: device not found\n");

    let registry = SmartDeviceList::new();
    assert_eq!(house.get_report(registry), "room: A, device: Room not found\n");
}

#[test]
fn report_of_an_empty_house_is_empty() {
    assert_eq!(SmartHouse::new().get_report(SmartDeviceList::new()), "");
    let house = house_of(&[("A", &[]), ("B", &[])]);
    assert_eq!(house.get_report(SmartDeviceList::new()), "");
}

#[test]
fn report_goes_room_by_room_and_device_by_device() {
    let house = house_of(&[
        ("Hall", &["Socket1", "therm1", "ghost"]),
        ("attic", &[]),
        ("kitchen", &["kettle"]),
    ]);
    let mut registry = SmartDeviceList::new();
    registry.add_device("hall", socket("socket1")).unwrap();
    registry.add_device("hall", thermometer("Therm1")).unwrap();
    registry.add_device("kitchen", socket("toaster")).unwrap();

    let expected = "room: Hall, device: DeviceInfo { kind: \"SmartSocket\", name: \"socket1\", state: \"NotPowered\" }\n\
                    room: Hall, device: DeviceInfo { kind: \"SmartThermometer\", name: \"Therm1\", state: \"Celsius(18000)\" }\n\
                    room: Hall, device: device not found\n\
                    room: kitchen, device: device not found\n";
    assert_eq!(house.get_report(registry), expected);
}

#[test]
fn report_shows_what_was_found_in_its_debug_form() {
    let info = DeviceInfo {
        kind: "SmartSocket".to_owned(),
        name: "so\"cket\n".to_owned(),
        state: "Powered(220)".to_owned(),
    };
    let shown = format!("{:?}", info);
    assert_eq!(
        shown,
        "DeviceInfo { kind: \"SmartSocket\", name: \"so\\\"cket\\n\", state: \"Powered(220)\" }"
    );
    assert_eq!(report_entry(&Ok(info)), shown);
    assert_eq!(report_entry(&Err(CustomError::RoomNotFound)), "Room not found");
    assert_eq!(
        report_entry(&Err(CustomError::DeviceFailure("hot".to_owned()))),
        "Error in device: hot"
    );
}

#[test]
fn report_line_has_its_form() {
    assert_eq!(report_line("hall", "anything"), "room: hall, device: anything\n");
    assert_eq!(report_line("", ""), "room: , device: \n");
}

struct Fixed;

impl DeviceInfoProvider for Fixed {
    fn get_device_info(&self, room: &str, device: &str) -> CustomResult<DeviceInfo> {
        if device == "broken" {
            Err(CustomError::DeviceFailure(format!("{} has no power", room)))
        } else {
            Ok(DeviceInfo {
                kind: "Kind".to_owned(),
                name: device.to_owned(),
                state: room.to_owned(),
            })
        }
    }
}

#[test]
fn report_asks_the_provider_with_the_names_that_the_house_keeps() {
    let house = house_of(&[("Hall", &["Lamp", "BROKEN"])]);
    let expected = "room: Hall, device: DeviceInfo { kind: \"Kind\", name: \"lamp\", state: \"Hall\" }\n\
                    room: Hall, device: Error in device: Hall has no power\n";
    assert_eq!(house.get_report(Fixed), expected);
}
