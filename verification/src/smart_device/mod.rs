//! Devices: the closed set of kinds that the registry can hold.

pub mod command;
pub mod power_socket;
pub mod thermometer;

use vstd::prelude::*;
use vstd::string::*;

use crate::error::CustomErrorView;
use crate::house::CustomResult;

pub use command::{
    Command, CommandData, DeviceCommand, Executable, ExecutionResult, ExecutionResultView,
    PowerSocketCommand, PowerSocketResult,
};
pub use power_socket::{PowerSocket, PowerSocketState, SocketError};
pub use thermometer::{Temperature, Thermometer, ThermometerError};

verus! {

/// A device of one of the kinds that the registry knows.
#[derive(Debug)]
pub enum SmartDevice {
    Thermo(Thermometer),
    Socket(PowerSocket),
}

impl SmartDevice {
    /// The name of the device.
    pub open spec fn name(self) -> Seq<char> {
        match self {
            SmartDevice::Socket(socket) => socket.name@,
            SmartDevice::Thermo(thermometer) => thermometer.name@,
        }
    }

    /// The name of the kind of the device.
    pub open spec fn kind_text(self) -> Seq<char> {
        match self {
            SmartDevice::Socket(_) => "SmartSocket"@,
            SmartDevice::Thermo(_) => "SmartThermometer"@,
        }
    }

    /// The state of the device as a text: that of a socket's state, or that
    /// of a thermometer's reading.
    pub open spec fn state_text(self) -> Seq<char> {
        match self {
            SmartDevice::Socket(socket) => socket.state.text(),
            SmartDevice::Thermo(thermometer) => thermometer.state.text(),
        }
    }

    /// The name of the device.
    pub fn get_name(&self) -> (name: String)
        ensures
            name@ == self.name(),
    {
        match self {
            SmartDevice::Socket(socket) => socket.name.clone(),
            SmartDevice::Thermo(thermometer) => thermometer.name.clone(),
        }
    }

    /// The state of the device as a text.
    pub fn get_state(&self) -> (state: String)
        ensures
            state@ == self.state_text(),
    {
        match self {
            SmartDevice::Socket(socket) => socket.get_state().to_text(),
            SmartDevice::Thermo(thermometer) => thermometer.get_temperature().to_text(),
        }
    }

    /// The name of the kind of the device.
    pub fn get_type(&self) -> (kind: String)
        ensures
            kind@ == self.kind_text(),
    {
        match self {
            SmartDevice::Socket(_) => String::from_str("SmartSocket"),
            SmartDevice::Thermo(_) => String::from_str("SmartThermometer"),
        }
    }

    /// Asks the device to carry out `command`, whatever kind it is of.
    pub fn execute_command(&mut self, command: DeviceCommand) -> (answer: CustomResult<
        ExecutionResult,
    >)
        ensures
            *final(self) == old(self).after(command),
            command::answer_view(answer) == old(self).answer(command),
    {
        self.execute(command)
    }
}

impl Executable for SmartDevice {
    open spec fn after(self, command: DeviceCommand) -> SmartDevice {
        match self {
            SmartDevice::Socket(socket) => SmartDevice::Socket(socket.after(command)),
            SmartDevice::Thermo(thermometer) => SmartDevice::Thermo(thermometer.after(command)),
        }
    }

    open spec fn answer(self, command: DeviceCommand) -> Result<
        ExecutionResultView,
        CustomErrorView,
    > {
        match self {
            SmartDevice::Socket(socket) => socket.answer(command),
            SmartDevice::Thermo(thermometer) => thermometer.answer(command),
        }
    }

    /// Hands the command to the socket or the thermometer that this is.
    fn execute(&mut self, command: DeviceCommand) -> (answer: CustomResult<ExecutionResult>) {
        match self {
            SmartDevice::Socket(socket) => socket.execute(command),
            SmartDevice::Thermo(thermometer) => thermometer.execute(command),
        }
    }
}

impl From<Thermometer> for SmartDevice {
    /// The thermometer as a device of the registry.
    fn from(thermometer: Thermometer) -> (device: SmartDevice) {
        SmartDevice::Thermo(thermometer)
    }
}

impl vstd::std_specs::convert::FromSpecImpl<Thermometer> for SmartDevice {
    open spec fn obeys_from_spec() -> bool {
        true
    }

    open spec fn from_spec(thermometer: Thermometer) -> SmartDevice {
        SmartDevice::Thermo(thermometer)
    }
}

impl From<PowerSocket> for SmartDevice {
    /// The socket as a device of the registry.
    fn from(socket: PowerSocket) -> (device: SmartDevice) {
        SmartDevice::Socket(socket)
    }
}

impl vstd::std_specs::convert::FromSpecImpl<PowerSocket> for SmartDevice {
    open spec fn obeys_from_spec() -> bool {
        true
    }

    open spec fn from_spec(socket: PowerSocket) -> SmartDevice {
        SmartDevice::Socket(socket)
    }
}

/// What can be stored as a device: a value of one of the device kinds.
pub trait Device: Sized {
    /// The device itself, by value.
    fn get_self(self) -> (same: Self)
        ensures
            same == self,
    ;
}

impl Device for Thermometer {
    fn get_self(self) -> (same: Thermometer) {
        self
    }
}

impl Device for PowerSocket {
    fn get_self(self) -> (same: PowerSocket) {
        self
    }
}

} // verus!
