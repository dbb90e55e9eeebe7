//! Commands: what can be asked of a device, how a command is decoded from
//! its one-byte code, and what a device answers.

use vstd::prelude::*;
use vstd::string::*;

use crate::error::{CustomError, CustomErrorView};
use crate::house::CustomResult;
use crate::smart_device::power_socket::PowerSocketState;

verus! {

/// The digit that marks a code as a power-socket command.
pub const POWER_SOCKET_KIND: u8 = 1;

/// What a caller sends: a command for a named device, or a code that could
/// not be decoded.
#[derive(Debug)]
pub enum Command {
    Execute(CommandData),
    Unknown,
}

/// A command, by the kind of device it is meant for.
#[derive(Debug, Copy, Clone, PartialEq, Eq, Structural)]
pub enum DeviceCommand {
    PowerSocket(PowerSocketCommand),
}

/// What can be asked of a power socket.
#[derive(Debug, Copy, Clone, PartialEq, Eq, Structural)]
pub enum PowerSocketCommand {
    TurnOn,
    TurnOff,
    GetState,
}

/// A socket command together with what came of it.
#[derive(Debug)]
pub struct PowerSocketResult {
    pub command: PowerSocketCommand,
    pub result: Result<PowerSocketState, String>,
}

/// A command and the name of the device that is to carry it out.
#[derive(Debug)]
pub struct CommandData {
    pub device_name: String,
    pub data: DeviceCommand,
}

/// What a device answers to a command.
#[derive(Debug)]
pub enum ExecutionResult {
    PowerSocket(PowerSocketState),
    Error(CustomError),
}

/// An [`ExecutionResult`] with its texts as sequences of characters.
pub enum ExecutionResultView {
    PowerSocket(PowerSocketState),
    Error(CustomErrorView),
}

impl View for ExecutionResult {
    type V = ExecutionResultView;

    open spec fn view(&self) -> ExecutionResultView {
        match self {
            ExecutionResult::PowerSocket(state) => ExecutionResultView::PowerSocket(*state),
            ExecutionResult::Error(error) => ExecutionResultView::Error(error@),
        }
    }
}

/// The answer to a command, or the failure to carry it out, with texts as
/// sequences of characters.
pub open spec fn answer_view(answer: CustomResult<ExecutionResult>) -> Result<
    ExecutionResultView,
    CustomErrorView,
> {
    match answer {
        Ok(result) => Ok(result@),
        Err(error) => Err(error@),
    }
}

/// The last decimal digit of a code: it selects the command.
pub open spec fn command_digit(code: u8) -> int {
    code as int % 10
}

/// The decimal digit before the last: it selects the kind of device.
pub open spec fn kind_digit(code: u8) -> int {
    (code as int / 10) % 10
}

/// The socket command that a digit selects, if it selects one.
pub open spec fn socket_command_of(digit: int) -> Option<PowerSocketCommand> {
    if digit == 0 {
        Some(PowerSocketCommand::TurnOff)
    } else if digit == 1 {
        Some(PowerSocketCommand::TurnOn)
    } else if digit == 2 {
        Some(PowerSocketCommand::GetState)
    } else {
        None
    }
}

/// The message of a code whose kind digit names no kind of device.
pub open spec fn unknown_device_message() -> Seq<char> {
    "Unknown device code in command code"@
}

/// The message of a code whose command digit names no socket command.
pub open spec fn unknown_socket_command_message() -> Seq<char> {
    "Unknown PowerSocketCommand code"@
}

/// What decoding a code gives: the command, or the failure with its message.
pub open spec fn decoded(code: u8) -> Result<DeviceCommand, CustomErrorView> {
    if kind_digit(code) != POWER_SOCKET_KIND {
        Err(CustomErrorView::CommandExecutionFailure(unknown_device_message()))
    } else {
        match socket_command_of(command_digit(code)) {
            Some(command) => Ok(DeviceCommand::PowerSocket(command)),
            None => Err(
                CustomErrorView::CommandExecutionFailure(unknown_socket_command_message()),
            ),
        }
    }
}

/// Every code either decodes or is refused as a command that could not be
/// carried out: it decodes where its kind digit is 1 and its command digit
/// is 0, 1 or 2, and nowhere else.
pub proof fn lemma_decoding_is_total(code: u8)
    ensures
        decoded(code) is Ok <==> kind_digit(code) == 1 && 0 <= command_digit(code) <= 2,
        decoded(code) matches Err(error) ==> error is CommandExecutionFailure,
        kind_digit(code) == 1 && command_digit(code) == 0 ==> decoded(code) == Ok::<
            DeviceCommand,
            CustomErrorView,
        >(DeviceCommand::PowerSocket(PowerSocketCommand::TurnOff)),
        kind_digit(code) == 1 && command_digit(code) == 1 ==> decoded(code) == Ok::<
            DeviceCommand,
            CustomErrorView,
        >(DeviceCommand::PowerSocket(PowerSocketCommand::TurnOn)),
        kind_digit(code) == 1 && command_digit(code) == 2 ==> decoded(code) == Ok::<
            DeviceCommand,
            CustomErrorView,
        >(DeviceCommand::PowerSocket(PowerSocketCommand::GetState)),
{
}

/// A decoding result with the failure's texts as sequences of characters.
pub open spec fn decoding_view<T>(result: CustomResult<T>) -> Result<T, CustomErrorView> {
    match result {
        Ok(value) => Ok(value),
        Err(error) => Err(error@),
    }
}

impl PowerSocketCommand {
    /// Decodes a socket command from its number: 0 switches off, 1 switches
    /// on, 2 asks for the state. Any other number is refused.
    pub fn from_u8(n: u8) -> (result: CustomResult<PowerSocketCommand>)
        ensures
            decoding_view(result) == match socket_command_of(n as int) {
                Some(command) => Ok::<PowerSocketCommand, CustomErrorView>(command),
                None => Err(
                    CustomErrorView::CommandExecutionFailure(unknown_socket_command_message()),
                ),
            },
    {
        if n == 2 {
            Ok(PowerSocketCommand::GetState)
        } else if n == 1 {
            Ok(PowerSocketCommand::TurnOn)
        } else if n == 0 {
            Ok(PowerSocketCommand::TurnOff)
        } else {
            Err(
                CustomError::CommandExecutionFailure(
                    String::from_str("Unknown PowerSocketCommand code"),
                ),
            )
        }
    }
}

impl DeviceCommand {
    /// Decodes a command from its code. The last decimal digit of the code
    /// selects the command, the digit before it the kind of device; any
    /// higher digit is ignored. The power socket, with the digit 1, is the
    /// only kind of device that a code can name.
    pub fn from_u8(n: u8) -> (result: CustomResult<DeviceCommand>)
        ensures
            decoding_view(result) == decoded(n),
    {
        let command_code: u8 = n % 10;
        let device_code: u8 = (n / 10) % 10;
        if device_code == POWER_SOCKET_KIND {
            match PowerSocketCommand::from_u8(command_code) {
                Ok(command) => Ok(DeviceCommand::PowerSocket(command)),
                Err(error) => Err(error),
            }
        } else {
            Err(
                CustomError::CommandExecutionFailure(
                    String::from_str("Unknown device code in command code"),
                ),
            )
        }
    }
}

impl From<(String, u8)> for Command {
    /// Pairs a device name with the command that a code stands for. A code
    /// that cannot be decoded gives [`Command::Unknown`].
    fn from(key_code: (String, u8)) -> (command: Command) {
        let name = key_code.0;
        match DeviceCommand::from_u8(key_code.1) {
            Ok(data) => Command::Execute(CommandData { device_name: name, data }),
            Err(_) => Command::Unknown,
        }
    }
}

impl vstd::std_specs::convert::FromSpecImpl<(String, u8)> for Command {
    open spec fn obeys_from_spec() -> bool {
        true
    }

    open spec fn from_spec(key_code: (String, u8)) -> Command {
        match decoded(key_code.1) {
            Ok(data) => Command::Execute(CommandData { device_name: key_code.0, data }),
            Err(_) => Command::Unknown,
        }
    }
}

/// A device that carries out commands.
pub trait Executable: Sized {
    /// The device after it was asked to carry out `command`. A device that
    /// does not say leaves it open.
    open spec fn after(self, command: DeviceCommand) -> Self {
        arbitrary()
    }

    /// What the device answers when asked to carry out `command`. A device
    /// that does not say leaves it open.
    open spec fn answer(self, command: DeviceCommand) -> Result<
        ExecutionResultView,
        CustomErrorView,
    > {
        arbitrary()
    }

    /// Asks the device to carry out `command`.
    fn execute(&mut self, command: DeviceCommand) -> (answer: CustomResult<ExecutionResult>)
        ensures
            *final(self) == old(self).after(command),
            answer_view(answer) == old(self).answer(command),
    ;
}

} // verus!
