use vstd::prelude::*;
use crate::text::{decimal, push_decimal};

verus! {

/// Report ID that opens every report exchanged with the headset.
pub const REPORT_ID: u8 = 0x06;
/// First fixed byte after the report ID.
pub const FIXED_BYTE_1: u8 = 0xFF;
/// Second fixed byte after the report ID.
pub const FIXED_BYTE_2: u8 = 0xBB;
/// Position of the command byte in a report.
pub const COMMAND_POS: usize = 3;
/// Position of the parameter (or of the answered value) in a report.
pub const DEFAULT_RESP_POS: usize = 4;
/// Position of the battery level in an answer.
pub const BATTERY_LEVEL_POS: usize = 7;

/// The commands the headset understands.
///
/// Setting the noise gate goes through `SetSidetoneStatus`, which in
/// practice may only change the sidetone.
#[derive(Debug, Clone, Copy, PartialEq, Eq, Structural)]
pub enum Commands {
    GetHeadsetStatus,
    GetBatteryLevel,
    GetChargingStatus,
    GetMicrophoneStatus,
    GetSidetoneStatus,
    GetAutoShutdownTime,
    GetSidetoneVolume,
    GetNoiseGateStatus,
    SetSidetoneStatus,
    SetAutoShutdownTime,
    SetSidetoneVolume,
}

/// The byte that stands for a command in a report the host sends.
pub open spec fn spec_code(command: Commands) -> u8 {
    match command {
        Commands::GetHeadsetStatus => 1,
        Commands::GetBatteryLevel => 2,
        Commands::GetChargingStatus => 3,
        Commands::GetMicrophoneStatus => 5,
        Commands::GetSidetoneStatus => 6,
        Commands::GetAutoShutdownTime => 7,
        Commands::GetSidetoneVolume => 11,
        Commands::GetNoiseGateStatus => 13,
        Commands::SetSidetoneStatus => 33,
        Commands::SetAutoShutdownTime => 34,
        Commands::SetSidetoneVolume => 35,
    }
}

/// The command that a byte of an answer names, if any. Besides the codes of
/// the commands themselves, 32 (sent when the microphone button is pressed)
/// names the microphone status.
pub open spec fn spec_command(byte: u8) -> Option<Commands> {
    if byte == 1 {
        Some(Commands::GetHeadsetStatus)
    } else if byte == 2 {
        Some(Commands::GetBatteryLevel)
    } else if byte == 3 {
        Some(Commands::GetChargingStatus)
    } else if byte == 5 {
        Some(Commands::GetMicrophoneStatus)
    } else if byte == 6 {
        Some(Commands::GetSidetoneStatus)
    } else if byte == 7 {
        Some(Commands::GetAutoShutdownTime)
    } else if byte == 11 {
        Some(Commands::GetSidetoneVolume)
    } else if byte == 13 {
        Some(Commands::GetNoiseGateStatus)
    } else if byte == 32 {
        Some(Commands::GetMicrophoneStatus)
    } else if byte == 33 {
        Some(Commands::SetSidetoneStatus)
    } else if byte == 34 {
        Some(Commands::SetAutoShutdownTime)
    } else if byte == 35 {
        Some(Commands::SetSidetoneVolume)
    } else {
        None
    }
}

/// The message of the error for a command byte that names no command.
pub open spec fn no_command_message(byte: u8) -> Seq<char> {
    "no command match for response "@ + decimal(byte as nat) + " found!"@
}

impl Commands {
    /// The byte that stands for this command in a report.
    pub fn code(self) -> (code: u8)
        ensures
            code == spec_code(self),
    {
        match self {
            Commands::GetHeadsetStatus => 1,
            Commands::GetBatteryLevel => 2,
            Commands::GetChargingStatus => 3,
            Commands::GetMicrophoneStatus => 5,
            Commands::GetSidetoneStatus => 6,
            Commands::GetAutoShutdownTime => 7,
            Commands::GetSidetoneVolume => 11,
            Commands::GetNoiseGateStatus => 13,
            Commands::SetSidetoneStatus => 33,
            Commands::SetAutoShutdownTime => 34,
            Commands::SetSidetoneVolume => 35,
        }
    }

    /// The command that the command byte of an answer names, or the message
    /// that no command matches it.
    pub fn try_from(command: u8) -> (res: Result<Commands, String>)
        ensures
            res matches Ok(c) ==> spec_command(command) == Some(c),
            res matches Err(msg) ==> spec_command(command) is None && msg@ == no_command_message(
                command,
            ),
            res is Ok <==> spec_command(command) is Some,
    {
        match command {
            1 => Ok(Commands::GetHeadsetStatus),
            2 => Ok(Commands::GetBatteryLevel),
            3 => Ok(Commands::GetChargingStatus),
            5 => Ok(Commands::GetMicrophoneStatus),
            6 => Ok(Commands::GetSidetoneStatus),
            7 => Ok(Commands::GetAutoShutdownTime),
            11 => Ok(Commands::GetSidetoneVolume),
            13 => Ok(Commands::GetNoiseGateStatus),
            32 => Ok(Commands::GetMicrophoneStatus),
            33 => Ok(Commands::SetSidetoneStatus),
            34 => Ok(Commands::SetAutoShutdownTime),
            35 => Ok(Commands::SetSidetoneVolume),
            _ => {
                let mut msg = String::from_str("no command match for response ");
                push_decimal(&mut msg, command);
                msg.append(" found!");
                Err(msg)
            },
        }
    }
}

/// The report the host sends for `command`: report ID, the two fixed bytes,
/// the command byte, then the parameter where there is one, and zeros.
pub open spec fn spec_report(command: Commands, param: Option<u8>) -> Seq<u8> {
    seq![REPORT_ID, FIXED_BYTE_1, FIXED_BYTE_2, spec_code(command),
        match param { Some(v) => v, None => 0u8 }]
        + Seq::new(15, |i: int| 0u8)
}

/// Builds the report that asks the headset to carry out `command`, with
/// `param` as its parameter.
pub fn build_report(command: Commands, param: Option<u8>) -> (report: [u8; 20])
    ensures
        report@ == spec_report(command, param),
{
    let mut buf = [0u8; 20];
    buf[0] = REPORT_ID;
    buf[1] = FIXED_BYTE_1;
    buf[2] = FIXED_BYTE_2;
    buf[COMMAND_POS] = command.code();
    if let Some(value) = param {
        buf[DEFAULT_RESP_POS] = value;
    }
    assert(buf@ =~= spec_report(command, param));
    buf
}

/// Decoding the code of any command gives that command back.
pub proof fn law_code_roundtrip(command: Commands)
    ensures
        spec_command(spec_code(command)) == Some(command),
{
}

/// Any byte that names a command is that command's code, but for 32, the
/// byte of the microphone button, which names the microphone status.
pub proof fn law_decode_then_code(byte: u8)
    requires
        spec_command(byte) is Some,
    ensures
        byte != 32 ==> spec_code(spec_command(byte)->0) == byte,
        byte == 32 ==> spec_command(byte) == Some(Commands::GetMicrophoneStatus),
{
}


/// Every report has the base layout of the protocol, whatever the command
/// and parameter: twenty bytes, report ID 0x06, the fixed bytes 0xFF and
/// 0xBB, the code of the command it was built for in byte 3, the parameter
/// (or 0 without one) in byte 4, and zeros after it.
pub proof fn law_report_layout(command: Commands, param: Option<u8>)
    ensures
        spec_report(command, param).len() == 20,
        spec_report(command, param)[0] == 0x06,
        spec_report(command, param)[1] == 0xFF,
        spec_report(command, param)[2] == 0xBB,
        spec_report(command, param)[COMMAND_POS as int] == spec_code(command),
        spec_report(command, param)[DEFAULT_RESP_POS as int] == match param {
            Some(v) => v,
            None => 0u8,
        },
        forall|i: int| 5 <= i < 20 ==> spec_report(command, param)[i] == 0,
{
}

/// Different commands have different codes, so a report never asks for
/// another command than the one it was built for.
pub proof fn law_codes_distinct(a: Commands, b: Commands)
    ensures
        a != b ==> spec_code(a) != spec_code(b),
{
}

/// The codes of the command table.
pub proof fn law_command_codes(command: Commands)
    ensures
        command == Commands::GetHeadsetStatus ==> spec_code(command) == 1,
        command == Commands::GetBatteryLevel ==> spec_code(command) == 2,
        command == Commands::GetChargingStatus ==> spec_code(command) == 3,
        command == Commands::GetMicrophoneStatus ==> spec_code(command) == 5,
        command == Commands::GetSidetoneStatus ==> spec_code(command) == 6,
        command == Commands::GetAutoShutdownTime ==> spec_code(command) == 7,
        command == Commands::GetSidetoneVolume ==> spec_code(command) == 11,
        command == Commands::GetNoiseGateStatus ==> spec_code(command) == 13,
        command == Commands::SetSidetoneStatus ==> spec_code(command) == 33,
        command == Commands::SetAutoShutdownTime ==> spec_code(command) == 34,
        command == Commands::SetSidetoneVolume ==> spec_code(command) == 35,
{
}

} // verus!
