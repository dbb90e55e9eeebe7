//! A smart-home registry: a house of named rooms that refer to devices by
//! name, a store that owns the devices themselves, typed commands that can be
//! run against a stored device, and a status report that joins the two.

pub mod device_info_provider;
pub mod error;
pub mod house;
pub mod smart_device;
pub mod text;

pub use device_info_provider::{DeviceInfo, DeviceInfoProvider, SmartDeviceList};
pub use error::CustomError;
pub use house::{CustomResult, Room, SmartHouse};
pub use smart_device::{
    Command, CommandData, Device, DeviceCommand, Executable, ExecutionResult, PowerSocket,
    PowerSocketCommand, PowerSocketResult, PowerSocketState, SmartDevice, SocketError,
    Temperature, Thermometer, ThermometerError,
};
