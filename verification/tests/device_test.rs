use smart_house::{
    Command, CustomError, Device, DeviceCommand, Executable, ExecutionResult, PowerSocket,
    PowerSocketCommand, PowerSocketState, SmartDevice, Temperature, Thermometer,
    ThermometerError,
};

fn degrees(whole: i32) -> i32 {
    whole * 1000
}

fn socket(name: &str) -> PowerSocket {
    PowerSocket {
        name: name.to_owned(),
        state: PowerSocketState::NotPowered,
        power_consumption: 0,
        description: "smart power socket".to_owned(),
    }
}

#[test]
fn create_therm() {
    let thermometer = Thermometer {
        name: "thermometer".to_owned(),
        state: Temperature::Celsius(degrees(11)),
    };
    let device = SmartDevice::Thermo(thermometer);
    assert_eq!(device.get_name(), "thermometer");
    assert_eq!(device.get_type(), "SmartThermometer");
    assert_eq!(
        device.get_state(),
        format!("{:?}", Temperature::Celsius(degrees(11)))
    );
}

#[test]
fn create_socket() {
    let socket = PowerSocket {
        name: "socket".to_owned(),
        state: PowerSocketState::NotPowered,
        power_consumption: 0,
        description: "smart power socket".to_owned(),
    };
    let device = SmartDevice::Socket(socket);
    assert_eq!(device.get_name(), "socket");
}

#[test]
fn temperature_conversion() {
    assert_eq!(Temperature::Celsius(degrees(-10)).as_fahrenheit(), 14);
    assert_eq!(Temperature::Fahrenheit(degrees(35)).as_fahrenheit(), 35);
    assert_eq!(Temperature::Celsius(degrees(31)).as_fahrenheit(), 88);

    assert_eq!(Temperature::Fahrenheit(degrees(-40)).as_celsius(), -40);
    assert_eq!(Temperature::Fahrenheit(degrees(0)).as_celsius(), -18);
    assert_eq!(Temperature::Fahrenheit(degrees(32)).as_celsius(), 0);
}

#[test]
fn readings_half_way_go_away_from_zero() {
    assert_eq!(Temperature::Celsius(500).as_celsius(), 1);
    assert_eq!(Temperature::Celsius(499).as_celsius(), 0);
    assert_eq!(Temperature::Celsius(-499).as_celsius(), 0);
    assert_eq!(Temperature::Celsius(-500).as_celsius(), -1);
    assert_eq!(Temperature::Celsius(1500).as_celsius(), 2);
    assert_eq!(Temperature::Fahrenheit(-1500).as_fahrenheit(), -2);
    // 2.5 degrees Celsius are 36.5 degrees Fahrenheit
    assert_eq!(Temperature::Celsius(2500).as_fahrenheit(), 37);
    // 32.9 degrees Fahrenheit are half a degree Celsius
    assert_eq!(Temperature::Fahrenheit(32900).as_celsius(), 1);
    assert_eq!(Temperature::Fahrenheit(31100).as_celsius(), -1);
    assert_eq!(Temperature::Fahrenheit(31101).as_celsius(), 0);
}

#[test]
fn readings_out_of_range_stop_at_the_ends() {
    assert_eq!(Temperature::Celsius(i32::MAX).as_celsius(), i16::MAX);
    assert_eq!(Temperature::Celsius(i32::MIN).as_celsius(), i16::MIN);
    assert_eq!(Temperature::Celsius(i32::MAX).as_fahrenheit(), i16::MAX);
    assert_eq!(Temperature::Celsius(i32::MIN).as_fahrenheit(), i16::MIN);
    assert_eq!(Temperature::Fahrenheit(i32::MAX).as_celsius(), i16::MAX);
    assert_eq!(Temperature::Fahrenheit(i32::MIN).as_celsius(), i16::MIN);
    assert_eq!(Temperature::Celsius(degrees(18186)).as_fahrenheit(), i16::MAX);
    assert_eq!(Temperature::Celsius(degrees(18187)).as_fahrenheit(), i16::MAX);
}

#[test]
fn whole_degrees_celsius_come_back_from_fahrenheit() {
    let mut whole: i32 = -300;
    while whole <= 300 {
        let there = Temperature::Celsius(degrees(whole)).as_fahrenheit();
        let back = Temperature::Fahrenheit(degrees(there as i32)).as_celsius();
        assert_eq!(back as i32, whole);
        whole += 1;
    }
}

#[test]
fn whole_degrees_fahrenheit_come_back_within_one() {
    let mut whole: i32 = -300;
    while whole <= 300 {
        let there = Temperature::Fahrenheit(degrees(whole)).as_celsius();
        let back = Temperature::Celsius(degrees(there as i32)).as_fahrenheit();
        assert!((back as i32 - whole).abs() <= 1);
        whole += 1;
    }
    // 33 degrees Fahrenheit are 0.56 degrees Celsius, and 1 degree Celsius
    // is 33.8 degrees Fahrenheit
    assert_eq!(Temperature::Fahrenheit(degrees(33)).as_celsius(), 1);
    assert_eq!(Temperature::Celsius(degrees(1)).as_fahrenheit(), 34);
}

#[test]
fn thermometer_reads_both_scales() {
    let thermometer = Thermometer {
        name: "t".to_owned(),
        state: Temperature::Celsius(degrees(100)),
    };
    assert_eq!(thermometer.get_celsius(), 100);
    assert_eq!(thermometer.get_fahrenheit(), 212);
    assert_eq!(thermometer.get_temperature(), Temperature::Celsius(100_000));
}

#[test]
fn state_texts_are_the_debug_forms() {
    let cases = [0u16, 7, 10, 99, 100, 220, 9999, 10000, u16::MAX];
    for consumption in cases {
        let state = PowerSocketState::Powered(consumption);
        assert_eq!(state.to_text(), format!("{:?}", state));
    }
    assert_eq!(PowerSocketState::NotPowered.to_text(), "NotPowered");
    assert_eq!(PowerSocketState::Powered(220).to_text(), "Powered(220)");
    let readings = [0i32, 5, -5, 10, -10, 18000, -40000, 1234567, i32::MAX, i32::MIN];
    for reading in readings {
        let celsius = Temperature::Celsius(reading);
        assert_eq!(celsius.to_text(), format!("{:?}", celsius));
        let fahrenheit = Temperature::Fahrenheit(reading);
        assert_eq!(fahrenheit.to_text(), format!("{:?}", fahrenheit));
    }
    assert_eq!(Temperature::Celsius(-10000).to_text(), "Celsius(-10000)");
    assert_eq!(Temperature::Fahrenheit(451).to_text(), "Fahrenheit(451)");
}

#[test]
fn device_tells_kind_name_and_state() {
    let mut plug = socket("plug");
    let device = SmartDevice::Socket(plug.clone());
    assert_eq!(device.get_type(), "SmartSocket");
    assert_eq!(device.get_name(), "plug");
    assert_eq!(device.get_state(), "NotPowered");
    plug.turn_on();
    let device = SmartDevice::Socket(plug);
    assert_eq!(device.get_state(), "Powered(220)");
    let info = device.describe();
    assert_eq!(info.kind, "SmartSocket");
    assert_eq!(info.name, "plug");
    assert_eq!(info.state, "Powered(220)");
}

#[test]
fn switching_on_sets_the_consumption() {
    let mut plug = socket("plug");
    assert_eq!(plug.get_state(), PowerSocketState::NotPowered);
    assert!(!plug.is_turned_on());
    plug.turn_on();
    assert!(plug.is_turned_on());
    assert_eq!(plug.get_state(), PowerSocketState::Powered(220));
    assert_eq!(plug.get_power_consumption(), 220);
    assert_eq!(plug.get_description(), "smart power socket");
    assert_eq!(plug.name, "plug");
}

#[test]
fn switching_on_keeps_a_socket_that_is_on() {
    let mut plug = socket("plug");
    plug.state = PowerSocketState::Powered(60);
    plug.power_consumption = 60;
    plug.turn_on();
    assert_eq!(plug.get_state(), PowerSocketState::Powered(60));
    assert_eq!(plug.get_power_consumption(), 60);
}

#[test]
fn switching_twice_is_switching_once() {
    let mut once = socket("plug");
    once.turn_on();
    let mut twice = socket("plug");
    twice.turn_on();
    twice.turn_on();
    assert_eq!(once.get_state(), twice.get_state());
    assert_eq!(once.get_power_consumption(), twice.get_power_consumption());

    once.turn_off();
    twice.turn_off();
    twice.turn_off();
    assert_eq!(once.get_state(), PowerSocketState::NotPowered);
    assert_eq!(twice.get_state(), PowerSocketState::NotPowered);
    assert_eq!(once.get_power_consumption(), twice.get_power_consumption());
    // the consumption that was last reported stays on record
    assert_eq!(twice.get_power_consumption(), 220);
}

#[test]
fn socket_answers_with_its_state() {
    let mut plug = socket("plug");
    let on = plug
        .execute(DeviceCommand::PowerSocket(PowerSocketCommand::TurnOn))
        .unwrap();
    assert!(matches!(
        on,
        ExecutionResult::PowerSocket(PowerSocketState::Powered(220))
    ));
    let asked = plug
        .execute(DeviceCommand::PowerSocket(PowerSocketCommand::GetState))
        .unwrap();
    assert!(matches!(
        asked,
        ExecutionResult::PowerSocket(PowerSocketState::Powered(220))
    ));
    assert_eq!(plug.get_state(), PowerSocketState::Powered(220));
    let off = plug
        .execute(DeviceCommand::PowerSocket(PowerSocketCommand::TurnOff))
        .unwrap();
    assert!(matches!(
        off,
        ExecutionResult::PowerSocket(PowerSocketState::NotPowered)
    ));
    assert_eq!(plug.get_state(), PowerSocketState::NotPowered);
}

#[test]
fn thermometer_refuses_commands() {
    let mut device = SmartDevice::Thermo(Thermometer {
        name: "t".to_owned(),
        state: Temperature::Fahrenheit(degrees(70)),
    });
    let answer = device.execute_command(DeviceCommand::PowerSocket(PowerSocketCommand::TurnOn));
    assert_eq!(
        answer.unwrap_err(),
        CustomError::CommandExecutionFailure("thermometer error".to_owned())
    );
    assert_eq!(device.get_state(), "Fahrenheit(70000)");
    assert_eq!(ThermometerError::default().get_message(), "thermometer error");
}

#[test]
fn device_hands_itself_over() {
    let plug = socket("plug").get_self();
    assert_eq!(plug.name, "plug");
    let thermometer = Thermometer {
        name: "t".to_owned(),
        state: Temperature::Celsius(1),
    }
    .get_self();
    assert_eq!(thermometer.state, Temperature::Celsius(1));
}

#[test]
fn codes_of_the_socket_decode() {
    assert_eq!(
        DeviceCommand::from_u8(10).unwrap(),
        DeviceCommand::PowerSocket(PowerSocketCommand::TurnOff)
    );
    assert_eq!(
        DeviceCommand::from_u8(11).unwrap(),
        DeviceCommand::PowerSocket(PowerSocketCommand::TurnOn)
    );
    assert_eq!(
        DeviceCommand::from_u8(12).unwrap(),
        DeviceCommand::PowerSocket(PowerSocketCommand::GetState)
    );
    // digits above the second are not looked at
    assert_eq!(
        DeviceCommand::from_u8(112).unwrap(),
        DeviceCommand::PowerSocket(PowerSocketCommand::GetState)
    );
    assert_eq!(
        DeviceCommand::from_u8(210).unwrap(),
        DeviceCommand::PowerSocket(PowerSocketCommand::TurnOff)
    );
}

#[test]
fn every_code_decodes_or_is_refused() {
    for code in 0..=u8::MAX {
        let command = code % 10;
        let kind = (code / 10) % 10;
        let decoded = DeviceCommand::from_u8(code);
        if kind != 1 {
            assert_eq!(
                decoded.unwrap_err(),
                CustomError::CommandExecutionFailure(
                    "Unknown device code in command code".to_owned()
                )
            );
        } else if command > 2 {
            assert_eq!(
                decoded.unwrap_err(),
                CustomError::CommandExecutionFailure("Unknown PowerSocketCommand code".to_owned())
            );
        } else {
            let expected = [
                PowerSocketCommand::TurnOff,
                PowerSocketCommand::TurnOn,
                PowerSocketCommand::GetState,
            ][command as usize];
            assert_eq!(decoded.unwrap(), DeviceCommand::PowerSocket(expected));
        }
    }
}

#[test]
fn codes_below_ten_name_no_device() {
    for code in 0..10u8 {
        assert_eq!(
            DeviceCommand::from_u8(code).unwrap_err(),
            CustomError::CommandExecutionFailure("Unknown device code in command code".to_owned())
        );
    }
}

#[test]
fn socket_command_numbers() {
    assert_eq!(PowerSocketCommand::from_u8(0).unwrap(), PowerSocketCommand::TurnOff);
    assert_eq!(PowerSocketCommand::from_u8(1).unwrap(), PowerSocketCommand::TurnOn);
    assert_eq!(PowerSocketCommand::from_u8(2).unwrap(), PowerSocketCommand::GetState);
    for number in 3..=u8::MAX {
        assert_eq!(
            PowerSocketCommand::from_u8(number).unwrap_err(),
            CustomError::CommandExecutionFailure("Unknown PowerSocketCommand code".to_owned())
        );
    }
}

#[test]
fn command_from_name_and_code() {
    match Command::from(("plug".to_owned(), 11)) {
        Command::Execute(data) => {
            assert_eq!(data.device_name, "plug");
            assert_eq!(data.data, DeviceCommand::PowerSocket(PowerSocketCommand::TurnOn));
        }
        Command::Unknown => panic!("code 11 switches a socket on"),
    }
    assert!(matches!(Command::from(("plug".to_owned(), 21)), Command::Unknown));
    assert!(matches!(Command::from(("plug".to_owned(), 19)), Command::Unknown));
    assert!(matches!(Command::from(("plug".to_owned(), 1)), Command::Unknown));
}

#[test]
fn messages_of_the_failures() {
    assert_eq!(
        CustomError::DeviceFailure("no power".to_owned()).message(),
        "Error in device: no power"
    );
    assert_eq!(CustomError::AddRoomError.message(), "Cannot add room");
    assert_eq!(CustomError::AddDeviceError.message(), "Cannot add device");
    assert_eq!(CustomError::DeviceNotFound.message(), "device not found");
    assert_eq!(CustomError::RoomNotFound.message(), "Room not found");
    assert_eq!(CustomError::Unknown.message(), "Unknown error");
    assert_eq!(
        CustomError::CommandExecutionFailure("bad code".to_owned()).message(),
        "Failed to execute command. Message: bad code"
    );
    assert_eq!(CustomError::DeviceFailure(String::new()).message(), "Error in device: ");
}

struct Bell {
    rings: u32,
}

impl Executable for Bell {
    fn execute(&mut self, _command: DeviceCommand) -> Result<ExecutionResult, CustomError> {
        self.rings += 1;
        Err(CustomError::Unknown)
    }
}

#[test]
fn device_of_another_kind_can_carry_out_commands() {
    let mut bell = Bell { rings: 0 };
    let answer = bell.execute(DeviceCommand::PowerSocket(PowerSocketCommand::TurnOn));
    assert_eq!(answer.unwrap_err(), CustomError::Unknown);
    assert_eq!(bell.rings, 1);
}
