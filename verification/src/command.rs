//! The commands that every RF Explorer accepts.
use vstd::prelude::*;

use crate::serial_port::{baud_code, BaudRate};

verus! {

/// A command that every RF Explorer accepts.
#[derive(Debug, Clone, Copy, PartialEq, Eq)]
pub enum Command {
    /// Asks for the current configuration.
    RequestConfig,
    /// Asks for the serial number.
    RequestSerialNumber,
    /// Turns the LCD on.
    EnableLcd,
    /// Turns the LCD off.
    DisableLcd,
    /// Starts sending screen data.
    EnableDumpScreen,
    /// Stops sending screen data.
    DisableDumpScreen,
    /// Stops collecting data.
    Hold,
    /// Switches the serial connection to another baud rate.
    SetBaudRate {
        /// The new baud rate.
        baud_rate: BaudRate,
    },
    /// Reboots the device.
    Reboot,
    /// Turns the device off.
    PowerOff,
}

/// The bytes that the device receives for `command`: `#`, the length of the
/// whole command, then its letters.
pub open spec fn command_bytes(command: Command) -> Seq<u8> {
    match command {
        Command::RequestConfig => seq![35u8, 4u8, 67u8, 48u8],
        Command::RequestSerialNumber => seq![35u8, 4u8, 67u8, 110u8],
        Command::EnableLcd => seq![35u8, 4u8, 76u8, 49u8],
        Command::DisableLcd => seq![35u8, 4u8, 76u8, 48u8],
        Command::EnableDumpScreen => seq![35u8, 4u8, 68u8, 49u8],
        Command::DisableDumpScreen => seq![35u8, 4u8, 68u8, 48u8],
        Command::Hold => seq![35u8, 4u8, 67u8, 72u8],
        Command::SetBaudRate { baud_rate } => seq![35u8, 4u8, 99u8, baud_rate@.1],
        Command::Reboot => seq![35u8, 3u8, 114u8],
        Command::PowerOff => seq![35u8, 3u8, 83u8],
    }
}

impl Command {
    /// The bytes that the device receives for the command.
    pub fn to_bytes(&self) -> (bytes: Vec<u8>)
        ensures
            bytes@ == command_bytes(*self),
    {
        let bytes = match self {
            Command::RequestConfig => vec![35u8, 4u8, 67u8, 48u8],
            Command::RequestSerialNumber => vec![35u8, 4u8, 67u8, 110u8],
            Command::EnableLcd => vec![35u8, 4u8, 76u8, 49u8],
            Command::DisableLcd => vec![35u8, 4u8, 76u8, 48u8],
            Command::EnableDumpScreen => vec![35u8, 4u8, 68u8, 49u8],
            Command::DisableDumpScreen => vec![35u8, 4u8, 68u8, 48u8],
            Command::Hold => vec![35u8, 4u8, 67u8, 72u8],
            Command::SetBaudRate { baud_rate } => vec![35u8, 4u8, 99u8, baud_rate.code()],
            Command::Reboot => vec![35u8, 3u8, 114u8],
            Command::PowerOff => vec![35u8, 3u8, 83u8],
        };
        assert(bytes@ =~= command_bytes(*self));
        bytes
    }
}

/// Every command starts with `#` and its second byte is its length.
pub proof fn lemma_command_size_field(command: Command)
    ensures
        command_bytes(command).len() >= 2,
        command_bytes(command)[0] == 35u8,
        command_bytes(command)[1] == command_bytes(command).len(),
{
}

/// The baud-rate command is `#`, 4, `c` and the code of the new rate.
pub proof fn lemma_set_baud_rate_bytes(baud_rate: BaudRate)
    requires
        baud_code(baud_rate@.0) == Some(baud_rate@.1),
    ensures
        command_bytes(Command::SetBaudRate { baud_rate }) == seq![
            35u8,
            4u8,
            99u8,
            baud_code(baud_rate@.0).unwrap(),
        ],
{
}

/// What each command asks of the device, by its letters after `#` and the
/// size byte: `C0` the configuration, `Cn` the serial number, `CH` a hold,
/// `c` and a rate's code a new baud rate, `r` a reboot, `S` a power-off; `L`
/// the LCD and `D` the screen dump, switched on by `1` and off by `0`.
pub proof fn lemma_command_meanings()
    ensures
        command_bytes(Command::RequestConfig) == seq![35u8, 4u8, 67u8, 48u8],
        command_bytes(Command::RequestSerialNumber) == seq![35u8, 4u8, 67u8, 110u8],
        command_bytes(Command::Hold) == seq![35u8, 4u8, 67u8, 72u8],
        command_bytes(Command::Reboot) == seq![35u8, 3u8, 114u8],
        command_bytes(Command::PowerOff) == seq![35u8, 3u8, 83u8],
        command_bytes(Command::EnableLcd).subrange(0, 3) == seq![35u8, 4u8, 76u8],
        command_bytes(Command::DisableLcd).subrange(0, 3) == seq![35u8, 4u8, 76u8],
        command_bytes(Command::EnableDumpScreen).subrange(0, 3) == seq![35u8, 4u8, 68u8],
        command_bytes(Command::DisableDumpScreen).subrange(0, 3) == seq![35u8, 4u8, 68u8],
        forall|c: Command|
            #![trigger command_bytes(c)]
            (c == Command::EnableLcd || c == Command::DisableLcd || c == Command::EnableDumpScreen
                || c == Command::DisableDumpScreen) ==> command_bytes(c).len() == 4 && (command_bytes(
                c,
            )[3] == 49u8 <==> (c == Command::EnableLcd || c == Command::EnableDumpScreen)) && (
            command_bytes(c)[3] == 48u8 <==> (c == Command::DisableLcd || c
                == Command::DisableDumpScreen)),
        forall|b: BaudRate|
            #![trigger command_bytes(Command::SetBaudRate { baud_rate: b })]
            command_bytes(Command::SetBaudRate { baud_rate: b }) == seq![35u8, 4u8, 99u8, b@.1],
{
    assert(command_bytes(Command::EnableLcd).subrange(0, 3) =~= seq![35u8, 4u8, 76u8]);
    assert(command_bytes(Command::DisableLcd).subrange(0, 3) =~= seq![35u8, 4u8, 76u8]);
    assert(command_bytes(Command::EnableDumpScreen).subrange(0, 3) =~= seq![35u8, 4u8, 68u8]);
    assert(command_bytes(Command::DisableDumpScreen).subrange(0, 3) =~= seq![35u8, 4u8, 68u8]);
}

/// Different commands are different bytes (two baud-rate commands differ
/// by their rates' codes).
pub proof fn lemma_commands_distinct(c1: Command, c2: Command)
    requires
        c1 != c2,
        !(c1 is SetBaudRate && c2 is SetBaudRate),
    ensures
        command_bytes(c1) != command_bytes(c2),
{
    if command_bytes(c1) == command_bytes(c2) {
        assert(command_bytes(c1).len() == command_bytes(c2).len());
        assert(command_bytes(c1)[2] == command_bytes(c2)[2]);
        if command_bytes(c1).len() == 4 {
            assert(command_bytes(c1)[3] == command_bytes(c2)[3]);
        }
    }
}

} // verus!
