//! The power socket: a two-state device that can be switched and asked for
//! its state.

use vstd::prelude::*;
use vstd::string::*;

use crate::error::CustomErrorView;
use crate::house::CustomResult;
use crate::smart_device::command::{
    DeviceCommand, Executable, ExecutionResult, ExecutionResultView, PowerSocketCommand,
};
use crate::text::{append_decimal, decimal};

verus! {

/// The consumption that a socket reports from the moment it is switched on.
pub const SWITCHED_ON_CONSUMPTION: u16 = 220;

/// Whether a socket delivers power, and how much.
#[derive(Clone, Copy, Debug, PartialEq, Eq, Structural)]
pub enum PowerSocketState {
    /// Switched on, with the consumption it reports.
    Powered(u16),
    /// Switched off.
    NotPowered,
}

impl PowerSocketState {
    /// The state as a text: whether the socket is powered, and the
    /// consumption in brackets if it is.
    pub open spec fn text(self) -> Seq<char> {
        match self {
            PowerSocketState::Powered(consumption) => "Powered("@ + decimal(consumption as int)
                + ")"@,
            PowerSocketState::NotPowered => "NotPowered"@,
        }
    }

    /// The state as a text: whether the socket is powered, and the
    /// consumption in brackets if it is.
    pub fn to_text(&self) -> (text: String)
        ensures
            text@ == self.text(),
    {
        match *self {
            PowerSocketState::Powered(consumption) => {
                let mut text = String::from_str("Powered(");
                append_decimal(&mut text, consumption as i64);
                text.append(")");
                text
            },
            PowerSocketState::NotPowered => String::from_str("NotPowered"),
        }
    }
}

/// A switchable power socket.
#[derive(Clone, Debug)]
pub struct PowerSocket {
    pub name: String,
    pub state: PowerSocketState,
    pub description: String,
    pub power_consumption: u16,
}

impl PowerSocket {
    /// The socket after it has been switched on: as it was if it delivered
    /// power already, else powered at [`SWITCHED_ON_CONSUMPTION`].
    pub open spec fn turned_on(self) -> PowerSocket {
        if self.state is Powered {
            self
        } else {
            PowerSocket {
                state: PowerSocketState::Powered(SWITCHED_ON_CONSUMPTION),
                power_consumption: SWITCHED_ON_CONSUMPTION,
                ..self
            }
        }
    }

    /// The socket after it has been switched off: only its state changes.
    pub open spec fn turned_off(self) -> PowerSocket {
        PowerSocket { state: PowerSocketState::NotPowered, ..self }
    }

    /// The socket after a command has been carried out on it.
    pub open spec fn applied(self, command: PowerSocketCommand) -> PowerSocket {
        match command {
            PowerSocketCommand::TurnOn => self.turned_on(),
            PowerSocketCommand::TurnOff => self.turned_off(),
            PowerSocketCommand::GetState => self,
        }
    }

    /// The consumption that the socket reported last.
    pub fn get_power_consumption(&self) -> (consumption: u16)
        ensures
            consumption == self.power_consumption,
    {
        self.power_consumption
    }

    /// What is written on the socket.
    pub fn get_description(&self) -> (description: &str)
        ensures
            description@ == self.description@,
    {
        self.description.as_str()
    }

    /// Switches the socket on. A socket that is on already stays as it is.
    pub fn turn_on(&mut self)
        ensures
            *final(self) == old(self).turned_on(),
    {
        if self.is_turned_on() {
            return ;
        }
        self.power_consumption = SWITCHED_ON_CONSUMPTION;
        self.state = PowerSocketState::Powered(self.power_consumption);
    }

    /// Switches the socket off. A socket that is off already stays as it is.
    pub fn turn_off(&mut self)
        ensures
            *final(self) == old(self).turned_off(),
    {
        if self.is_turned_on() {
            self.state = PowerSocketState::NotPowered;
        }
    }

    /// The state that the socket is in.
    pub fn get_state(&self) -> (state: PowerSocketState)
        ensures
            state == self.state,
    {
        self.state
    }

    /// Whether the socket delivers power.
    pub fn is_turned_on(&self) -> (on: bool)
        ensures
            on == (self.state is Powered),
    {
        match self.state {
            PowerSocketState::Powered(_) => true,
            PowerSocketState::NotPowered => false,
        }
    }
}

impl Executable for PowerSocket {
    open spec fn after(self, command: DeviceCommand) -> PowerSocket {
        match command {
            DeviceCommand::PowerSocket(socket_command) => self.applied(socket_command),
        }
    }

    open spec fn answer(self, command: DeviceCommand) -> Result<
        ExecutionResultView,
        CustomErrorView,
    > {
        Ok(ExecutionResultView::PowerSocket(self.after(command).state))
    }

    /// Carries out a socket command and answers with the state that the
    /// socket is in afterwards.
    fn execute(&mut self, command: DeviceCommand) -> (answer: CustomResult<ExecutionResult>) {
        match command {
            DeviceCommand::PowerSocket(socket_command) => {
                match socket_command {
                    PowerSocketCommand::TurnOff => self.turn_off(),
                    PowerSocketCommand::TurnOn => self.turn_on(),
                    PowerSocketCommand::GetState => {},
                }
                Ok(ExecutionResult::PowerSocket(self.get_state()))
            },
        }
    }
}

/// Switching on twice is switching on once.
pub proof fn lemma_turn_on_idempotent(socket: PowerSocket)
    ensures
        socket.turned_on().turned_on() == socket.turned_on(),
{
}

/// Switching off twice is switching off once.
pub proof fn lemma_turn_off_idempotent(socket: PowerSocket)
    ensures
        socket.turned_off().turned_off() == socket.turned_off(),
{
}

/// Carrying out the same command twice in a row leaves the socket as
/// carrying it out once does, and gets the same answer both times.
pub proof fn lemma_command_idempotent(socket: PowerSocket, command: DeviceCommand)
    ensures
        socket.after(command).after(command) == socket.after(command),
        socket.after(command).answer(command) == socket.answer(command),
{
}

/// The failure of a power socket.
#[derive(Debug, Default)]
pub struct SocketError {}

} // verus!
