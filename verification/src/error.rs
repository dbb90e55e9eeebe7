//! The failures that the house and the device registry report.

use vstd::prelude::*;
use vstd::string::*;

verus! {

/// Why an operation on the house or on the device registry failed.
#[derive(Debug, Clone, PartialEq, Eq)]
pub enum CustomError {
    /// A device could not carry out a command; the text says why.
    DeviceFailure(String),
    /// The house already has a room of that name.
    AddRoomError,
    /// The room already has a device of that name, or the room is missing.
    AddDeviceError,
    /// No device of that name is where it was looked for.
    DeviceNotFound,
    /// No room of that name is where it was looked for.
    RoomNotFound,
    /// A failure of no other kind.
    Unknown,
    /// A command could not be decoded or dispatched; the text says why.
    CommandExecutionFailure(String),
}

/// A [`CustomError`] with its texts as sequences of characters.
pub enum CustomErrorView {
    DeviceFailure(Seq<char>),
    AddRoomError,
    AddDeviceError,
    DeviceNotFound,
    RoomNotFound,
    Unknown,
    CommandExecutionFailure(Seq<char>),
}

impl View for CustomError {
    type V = CustomErrorView;

    open spec fn view(&self) -> CustomErrorView {
        match self {
            CustomError::DeviceFailure(detail) => CustomErrorView::DeviceFailure(detail@),
            CustomError::AddRoomError => CustomErrorView::AddRoomError,
            CustomError::AddDeviceError => CustomErrorView::AddDeviceError,
            CustomError::DeviceNotFound => CustomErrorView::DeviceNotFound,
            CustomError::RoomNotFound => CustomErrorView::RoomNotFound,
            CustomError::Unknown => CustomErrorView::Unknown,
            CustomError::CommandExecutionFailure(detail) => CustomErrorView::CommandExecutionFailure(
                detail@,
            ),
        }
    }
}

impl CustomErrorView {
    /// The message that describes the failure to a reader.
    pub open spec fn message(self) -> Seq<char> {
        match self {
            CustomErrorView::DeviceFailure(detail) => "Error in device: "@ + detail,
            CustomErrorView::AddRoomError => "Cannot add room"@,
            CustomErrorView::AddDeviceError => "Cannot add device"@,
            CustomErrorView::DeviceNotFound => "device not found"@,
            CustomErrorView::RoomNotFound => "Room not found"@,
            CustomErrorView::Unknown => "Unknown error"@,
            CustomErrorView::CommandExecutionFailure(detail) => "Failed to execute command. Message: "@
                + detail,
        }
    }
}

impl CustomError {
    /// The message that describes the failure to a reader.
    pub fn message(&self) -> (text: String)
        ensures
            text@ == self@.message(),
    {
        match self {
            CustomError::DeviceFailure(detail) => {
                String::from_str("Error in device: ").concat(detail.as_str())
            },
            CustomError::AddRoomError => String::from_str("Cannot add room"),
            CustomError::AddDeviceError => String::from_str("Cannot add device"),
            CustomError::DeviceNotFound => String::from_str("device not found"),
            CustomError::RoomNotFound => String::from_str("Room not found"),
            CustomError::Unknown => String::from_str("Unknown error"),
            CustomError::CommandExecutionFailure(detail) => {
                String::from_str("Failed to execute command. Message: ").concat(detail.as_str())
            },
        }
    }
}

} // verus!
