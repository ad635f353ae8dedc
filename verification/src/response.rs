use vstd::prelude::*;
use crate::readings::spec_response_field;
use crate::command::{
    Commands, spec_command, spec_report, spec_code, law_code_roundtrip, no_command_message, COMMAND_POS, DEFAULT_RESP_POS, BATTERY_LEVEL_POS,
};
use crate::text::{decimal, push_decimal, law_decimal_injective, lemma_prefix_cancel, lemma_suffix_cancel};

verus! {

/// The `read` count that a successful read of a report returns.
pub const READ_SUCCESS: u8 = 20;
/// What a read returns when no data was available.
pub const READ_EMPTY: usize = 0;
/// The battery-level byte of an answer that carries no battery level.
pub const READ_EMPTY_U8: u8 = 0;

/// A value that the headset reported.
#[derive(Debug, PartialEq, Eq, Copy, Clone, Structural)]
pub enum Response {
    BatteryLevel(u8),
    ChargingStatus(bool),
    IsActive(bool),
    AutoShutdownTime(u8),
    SidetoneStatus(bool),
    SidetoneVolume(u8),
    NoiseGateStatus(bool),
    MicrophoneStatus(bool),
}

/// What can go wrong while talking to the headset.
#[derive(Debug, PartialEq)]
pub enum HeadsetError {
    Disconnected,
    WriteError,
    ReadError { read: u8 },
    HidApiError { msg: String },
    GetHandleError,
    FlushError,
    ParseError { msg: String },
}

/// A `HeadsetError` with its messages taken as character sequences.
pub enum ErrorView {
    Disconnected,
    WriteError,
    ReadError { read: u8 },
    HidApiError { msg: Seq<char> },
    GetHandleError,
    FlushError,
    ParseError { msg: Seq<char> },
}

impl View for HeadsetError {
    type V = ErrorView;

    open spec fn view(&self) -> ErrorView {
        match self {
            HeadsetError::Disconnected => ErrorView::Disconnected,
            HeadsetError::WriteError => ErrorView::WriteError,
            HeadsetError::ReadError { read } => ErrorView::ReadError { read: *read },
            HeadsetError::HidApiError { msg } => ErrorView::HidApiError { msg: msg@ },
            HeadsetError::GetHandleError => ErrorView::GetHandleError,
            HeadsetError::FlushError => ErrorView::FlushError,
            HeadsetError::ParseError { msg } => ErrorView::ParseError { msg: msg@ },
        }
    }
}

/// The outcome of an exchange, with the error taken by its view.
pub open spec fn outcome_view(r: Result<Response, HeadsetError>) -> Result<Response, ErrorView> {
    match r {
        Ok(resp) => Ok(resp),
        Err(e) => Err(e@),
    }
}

/// The value an answer carries: the battery level when byte 7 holds one
/// (1 to 100), the parameter byte when byte 7 is empty, and 0 otherwise.
pub open spec fn answer_value(buf: Seq<u8>) -> u8 {
    let level = buf[BATTERY_LEVEL_POS as int];
    if level == READ_EMPTY_U8 {
        buf[DEFAULT_RESP_POS as int]
    } else if level <= 100 {
        level
    } else {
        0
    }
}

/// What an answer to `command` that carries `value` reports, if the value is
/// valid for that command. The microphone and noise gate statuses are
/// inverted (0 means on); the headset status is active for 1 and 4 and
/// inactive for 3.
pub open spec fn decode(command: Commands, value: u8) -> Option<Response> {
    match command {
        Commands::GetChargingStatus => if value == 1 {
            Some(Response::ChargingStatus(true))
        } else if value == 0 {
            Some(Response::ChargingStatus(false))
        } else {
            None
        },
        Commands::GetHeadsetStatus => if value == 1 || value == 4 {
            Some(Response::IsActive(true))
        } else if value == 3 {
            Some(Response::IsActive(false))
        } else {
            None
        },
        Commands::GetBatteryLevel => if 1 <= value <= 100 {
            Some(Response::BatteryLevel(value))
        } else {
            None
        },
        Commands::GetMicrophoneStatus => if value == 1 {
            Some(Response::MicrophoneStatus(false))
        } else if value == 0 {
            Some(Response::MicrophoneStatus(true))
        } else {
            None
        },
        Commands::GetNoiseGateStatus => if value == 1 {
            Some(Response::NoiseGateStatus(false))
        } else if value == 0 {
            Some(Response::NoiseGateStatus(true))
        } else {
            None
        },
        Commands::GetSidetoneStatus | Commands::SetSidetoneStatus => if value == 1 {
            Some(Response::SidetoneStatus(true))
        } else if value == 0 {
            Some(Response::SidetoneStatus(false))
        } else {
            None
        },
        Commands::GetSidetoneVolume | Commands::SetSidetoneVolume => Some(
            Response::SidetoneVolume(value),
        ),
        Commands::GetAutoShutdownTime | Commands::SetAutoShutdownTime => Some(
            Response::AutoShutdownTime(value),
        ),
    }
}

/// The message of the error for a value that is not valid for its command.
pub open spec fn invalid_value_message(value: u8) -> Seq<char> {
    "invalid response value: "@ + decimal(value as nat)
}

/// What an answer report means: the response it carries, or the parse error
/// with its message.
pub open spec fn spec_parse(buf: Seq<u8>) -> Result<Response, ErrorView> {
    let byte = buf[COMMAND_POS as int];
    match spec_command(byte) {
        None => Err(ErrorView::ParseError { msg: no_command_message(byte) }),
        Some(command) => {
            let value = answer_value(buf);
            match decode(command, value) {
                Some(resp) => Ok(resp),
                None => Err(ErrorView::ParseError { msg: invalid_value_message(value) }),
            }
        },
    }
}

fn invalid_value(value: u8) -> (e: HeadsetError)
    ensures
        e@ == (ErrorView::ParseError { msg: invalid_value_message(value) }),
{
    let mut msg = String::from_str("invalid response value: ");
    push_decimal(&mut msg, value);
    HeadsetError::ParseError { msg }
}

impl Commands {
    /// Reads an answer report of the headset: the command byte says which
    /// command it answers, and byte 7 (battery level) or byte 4 carries the
    /// value.
    pub fn parse(buf: &[u8; 20]) -> (res: Result<Response, HeadsetError>)
        ensures
            outcome_view(res) == spec_parse(buf@),
    {
        let command_buf = buf[COMMAND_POS];
        let mut resp: u8 = 0;
        let level = buf[BATTERY_LEVEL_POS];
        if level == READ_EMPTY_U8 {
            resp = buf[DEFAULT_RESP_POS];
        } else if level <= 100 {
            resp = level;
        }
        assert(resp == answer_value(buf@));
        let command = match Self::try_from(command_buf) {
            Ok(command_name) => command_name,
            Err(error) => {
                return Err(HeadsetError::ParseError { msg: error });
            },
        };
        match command {
            Commands::GetChargingStatus => match resp {
                1 => Ok(Response::ChargingStatus(true)),
                0 => Ok(Response::ChargingStatus(false)),
                _ => Err(invalid_value(resp)),
            },
            Commands::GetHeadsetStatus => match resp {
                1 => Ok(Response::IsActive(true)),
                4 => Ok(Response::IsActive(true)),
                3 => Ok(Response::IsActive(false)),
                _ => Err(invalid_value(resp)),
            },
            Commands::GetBatteryLevel => if 1 <= resp && resp <= 100 {
                Ok(Response::BatteryLevel(resp))
            } else {
                Err(invalid_value(resp))
            },
            Commands::GetMicrophoneStatus => match resp {
                1 => Ok(Response::MicrophoneStatus(false)),
                0 => Ok(Response::MicrophoneStatus(true)),
                _ => Err(invalid_value(resp)),
            },
            Commands::GetNoiseGateStatus => match resp {
                1 => Ok(Response::NoiseGateStatus(false)),
                0 => Ok(Response::NoiseGateStatus(true)),
                _ => Err(invalid_value(resp)),
            },
            Commands::GetSidetoneStatus => match resp {
                1 => Ok(Response::SidetoneStatus(true)),
                0 => Ok(Response::SidetoneStatus(false)),
                _ => Err(invalid_value(resp)),
            },
            Commands::SetSidetoneStatus => match resp {
                1 => Ok(Response::SidetoneStatus(true)),
                0 => Ok(Response::SidetoneStatus(false)),
                _ => Err(invalid_value(resp)),
            },
            Commands::GetSidetoneVolume => Ok(Response::SidetoneVolume(resp)),
            Commands::SetSidetoneVolume => Ok(Response::SidetoneVolume(resp)),
            Commands::GetAutoShutdownTime => Ok(Response::AutoShutdownTime(resp)),
            Commands::SetAutoShutdownTime => Ok(Response::AutoShutdownTime(resp)),
        }
    }
}

/// The text of a yes/no reading.
pub open spec fn flag_text(flag: bool, yes: Seq<char>, no: Seq<char>) -> Seq<char> {
    if flag { yes } else { no }
}

/// How a response reads to a person.
pub open spec fn response_text(resp: Response) -> Seq<char> {
    match resp {
        Response::IsActive(active) => "device status: "@ + flag_text(active, "active"@, "inactive"@),
        Response::BatteryLevel(level) => "battery level: "@ + decimal(level as nat) + "%"@,
        Response::ChargingStatus(status) => "charging status: "@ + flag_text(
            status,
            "charging"@,
            "not charging"@,
        ),
        Response::AutoShutdownTime(time) => "auto-shutdown delay: "@ + decimal(time as nat)
            + " minute(s)"@,
        Response::SidetoneStatus(status) => "sidetone status: "@ + flag_text(
            status,
            "active"@,
            "inactive"@,
        ),
        Response::SidetoneVolume(volume) => "sidetone volume: "@ + decimal(volume as nat),
        Response::NoiseGateStatus(status) => "noisegate status: "@ + flag_text(status, "on"@, "off"@),
        Response::MicrophoneStatus(status) => "microphone status: "@ + flag_text(
            status,
            "on"@,
            "off"@,
        ),
    }
}

/// How an error reads to a person.
pub open spec fn error_text(e: ErrorView) -> Seq<char> {
    match e {
        ErrorView::Disconnected => "device disconnected!"@,
        ErrorView::WriteError => "failed to write to device!"@,
        ErrorView::ReadError { read } => "failed to read data! expected: "@ + decimal(
            READ_SUCCESS as nat,
        ) + ", got: "@ + decimal(read as nat),
        ErrorView::HidApiError { msg } => "hidapi error occurred, msg: "@ + msg,
        ErrorView::GetHandleError => "failed to get device handle!"@,
        ErrorView::FlushError => "failed to flush queue!"@,
        ErrorView::ParseError { msg } => "failed to parse buffer! msg: "@ + msg,
    }
}

fn append_flag(s: &mut String, flag: bool, yes: &str, no: &str)
    ensures
        final(s)@ == old(s)@ + flag_text(flag, yes@, no@),
{
    if flag {
        s.append(yes);
    } else {
        s.append(no);
    }
}

impl Response {
    /// The text of this response, as the monitor logs it.
    pub fn to_string(&self) -> (s: String)
        ensures
            s@ == response_text(*self),
    {
        match *self {
            Response::IsActive(active) => {
                let mut s = String::from_str("device status: ");
                append_flag(&mut s, active, "active", "inactive");
                s
            },
            Response::BatteryLevel(level) => {
                let mut s = String::from_str("battery level: ");
                push_decimal(&mut s, level);
                s.append("%");
                s
            },
            Response::ChargingStatus(status) => {
                let mut s = String::from_str("charging status: ");
                append_flag(&mut s, status, "charging", "not charging");
                s
            },
            Response::AutoShutdownTime(time) => {
                let mut s = String::from_str("auto-shutdown delay: ");
                push_decimal(&mut s, time);
                s.append(" minute(s)");
                s
            },
            Response::SidetoneStatus(status) => {
                let mut s = String::from_str("sidetone status: ");
                append_flag(&mut s, status, "active", "inactive");
                s
            },
            Response::SidetoneVolume(volume) => {
                let mut s = String::from_str("sidetone volume: ");
                push_decimal(&mut s, volume);
                s
            },
            Response::NoiseGateStatus(status) => {
                let mut s = String::from_str("noisegate status: ");
                append_flag(&mut s, status, "on", "off");
                s
            },
            Response::MicrophoneStatus(status) => {
                let mut s = String::from_str("microphone status: ");
                append_flag(&mut s, status, "on", "off");
                s
            },
        }
    }
}

impl HeadsetError {
    /// The text of this error, as the monitor logs it.
    pub fn to_string(&self) -> (s: String)
        ensures
            s@ == error_text(self@),
    {
        match self {
            HeadsetError::Disconnected => String::from_str("device disconnected!"),
            HeadsetError::WriteError => String::from_str("failed to write to device!"),
            HeadsetError::ReadError { read } => {
                let mut s = String::from_str("failed to read data! expected: ");
                push_decimal(&mut s, READ_SUCCESS);
                s.append(", got: ");
                push_decimal(&mut s, *read);
                s
            },
            HeadsetError::HidApiError { msg } => {
                let mut s = String::from_str("hidapi error occurred, msg: ");
                s.append(msg.as_str());
                s
            },
            HeadsetError::GetHandleError => String::from_str("failed to get device handle!"),
            HeadsetError::FlushError => String::from_str("failed to flush queue!"),
            HeadsetError::ParseError { msg } => {
                let mut s = String::from_str("failed to parse buffer! msg: ");
                s.append(msg.as_str());
                s
            },
        }
    }
}


/// An answer that repeats the report sent for a command with value `value`
/// parses as that command's reading of `value`: the value the host writes is
/// the value it reads back.
pub proof fn law_echoed_report_parses(command: Commands, value: u8)
    ensures
        spec_parse(spec_report(command, Some(value))) == match decode(command, value) {
            Some(resp) => Ok(resp),
            None => Err(ErrorView::ParseError { msg: invalid_value_message(value) }),
        },
{
    law_code_roundtrip(command);
    let report = spec_report(command, Some(value));
    assert(report[COMMAND_POS as int] == spec_code(command));
    assert(report[BATTERY_LEVEL_POS as int] == 0);
    assert(report[DEFAULT_RESP_POS as int] == value);
}


/// Only the command byte, the parameter byte and the battery-level byte of an
/// answer matter: two answers that agree on them mean the same.
pub proof fn law_parse_reads_three_bytes(a: Seq<u8>, b: Seq<u8>)
    requires
        a.len() == 20,
        b.len() == 20,
        a[COMMAND_POS as int] == b[COMMAND_POS as int],
        a[DEFAULT_RESP_POS as int] == b[DEFAULT_RESP_POS as int],
        a[BATTERY_LEVEL_POS as int] == b[BATTERY_LEVEL_POS as int],
    ensures
        spec_parse(a) == spec_parse(b),
{
}


/// The answers of the headset, as its command table gives them: where byte 7
/// is empty, byte 4 holds the value. Charging and sidetone status read 1 as
/// on and 0 as off; microphone and noise gate read 0 as on and 1 as off;
/// the headset is active for 1 and 4 and inactive for 3; volume and
/// auto-shutdown delay take the byte as it is; a battery level of 1 to 100
/// stands in byte 7.
pub proof fn law_answer_table(buf: Seq<u8>)
    requires
        buf.len() == 20,
    ensures
        ({
            let cmd = buf[3];
            let v = buf[4];
            let ok = |r: Response| Ok::<Response, ErrorView>(r);
            &&& (cmd == 2 && 1 <= buf[7] <= 100) ==> spec_parse(buf) == ok(
                Response::BatteryLevel(buf[7]),
            )
            &&& buf[7] == 0 ==> {
                &&& (cmd == 3 && v == 1) ==> spec_parse(buf) == ok(Response::ChargingStatus(true))
                &&& (cmd == 3 && v == 0) ==> spec_parse(buf) == ok(Response::ChargingStatus(false))
                &&& ((cmd == 6 || cmd == 33) && v == 1) ==> spec_parse(buf) == ok(
                    Response::SidetoneStatus(true),
                )
                &&& ((cmd == 6 || cmd == 33) && v == 0) ==> spec_parse(buf) == ok(
                    Response::SidetoneStatus(false),
                )
                &&& ((cmd == 5 || cmd == 32) && v == 0) ==> spec_parse(buf) == ok(
                    Response::MicrophoneStatus(true),
                )
                &&& ((cmd == 5 || cmd == 32) && v == 1) ==> spec_parse(buf) == ok(
                    Response::MicrophoneStatus(false),
                )
                &&& (cmd == 13 && v == 0) ==> spec_parse(buf) == ok(Response::NoiseGateStatus(true))
                &&& (cmd == 13 && v == 1) ==> spec_parse(buf) == ok(
                    Response::NoiseGateStatus(false),
                )
                &&& (cmd == 1 && (v == 1 || v == 4)) ==> spec_parse(buf) == ok(
                    Response::IsActive(true),
                )
                &&& (cmd == 1 && v == 3) ==> spec_parse(buf) == ok(Response::IsActive(false))
                &&& (cmd == 11 || cmd == 35) ==> spec_parse(buf) == ok(Response::SidetoneVolume(v))
                &&& (cmd == 7 || cmd == 34) ==> spec_parse(buf) == ok(
                    Response::AutoShutdownTime(v),
                )
            }
        }),
{
}

/// The commands whose answer is a yes/no reading.
pub open spec fn is_flag_command(command: Commands) -> bool {
    ||| command == Commands::GetChargingStatus
    ||| command == Commands::GetMicrophoneStatus
    ||| command == Commands::GetNoiseGateStatus
    ||| command == Commands::GetSidetoneStatus
    ||| command == Commands::SetSidetoneStatus
}

/// The yes/no value a response carries, if it carries one.
pub open spec fn flag_of(resp: Response) -> Option<bool> {
    match resp {
        Response::ChargingStatus(b) => Some(b),
        Response::IsActive(b) => Some(b),
        Response::SidetoneStatus(b) => Some(b),
        Response::NoiseGateStatus(b) => Some(b),
        Response::MicrophoneStatus(b) => Some(b),
        _ => None,
    }
}

/// For every yes/no reading, both 0 and 1 are valid answers; they are
/// readings of the command's kind, and they carry opposite values.
pub proof fn law_flag_answers(command: Commands)
    requires
        is_flag_command(command),
    ensures
        decode(command, 0) is Some,
        decode(command, 1) is Some,
        spec_response_field(decode(command, 0)->0) == spec_response_field(decode(command, 1)->0),
        flag_of(decode(command, 0)->0) is Some,
        flag_of(decode(command, 1)->0) is Some,
        flag_of(decode(command, 0)->0)->0 != flag_of(decode(command, 1)->0)->0,
{
}

/// Two yes/no words that differ in length are different words.
proof fn lemma_flag_text_differs(yes: Seq<char>, no: Seq<char>, a: bool, b: bool)
    requires
        yes.len() != no.len(),
        a != b,
    ensures
        flag_text(a, yes, no) != flag_text(b, yes, no),
{
}

/// The logged text tells the values of a reading apart: two different
/// responses of the same kind never read the same.
pub proof fn law_response_text_tells_values_apart(r1: Response, r2: Response)
    requires
        spec_response_field(r1) == spec_response_field(r2),
        r1 != r2,
    ensures
        response_text(r1) != response_text(r2),
{
    reveal_strlit("active");
    reveal_strlit("inactive");
    reveal_strlit("charging");
    reveal_strlit("not charging");
    reveal_strlit("on");
    reveal_strlit("off");
    if response_text(r1) == response_text(r2) {
        match (r1, r2) {
            (Response::IsActive(a), Response::IsActive(b)) => {
                lemma_prefix_cancel("device status: "@, flag_text(a, "active"@, "inactive"@), flag_text(b, "active"@, "inactive"@));
                lemma_flag_text_differs("active"@, "inactive"@, a, b);
            },
            (Response::ChargingStatus(a), Response::ChargingStatus(b)) => {
                lemma_prefix_cancel("charging status: "@, flag_text(a, "charging"@, "not charging"@), flag_text(b, "charging"@, "not charging"@));
                lemma_flag_text_differs("charging"@, "not charging"@, a, b);
            },
            (Response::SidetoneStatus(a), Response::SidetoneStatus(b)) => {
                lemma_prefix_cancel("sidetone status: "@, flag_text(a, "active"@, "inactive"@), flag_text(b, "active"@, "inactive"@));
                lemma_flag_text_differs("active"@, "inactive"@, a, b);
            },
            (Response::NoiseGateStatus(a), Response::NoiseGateStatus(b)) => {
                lemma_prefix_cancel("noisegate status: "@, flag_text(a, "on"@, "off"@), flag_text(b, "on"@, "off"@));
                lemma_flag_text_differs("on"@, "off"@, a, b);
            },
            (Response::MicrophoneStatus(a), Response::MicrophoneStatus(b)) => {
                lemma_prefix_cancel("microphone status: "@, flag_text(a, "on"@, "off"@), flag_text(b, "on"@, "off"@));
                lemma_flag_text_differs("on"@, "off"@, a, b);
            },
            (Response::BatteryLevel(a), Response::BatteryLevel(b)) => {
                lemma_suffix_cancel("battery level: "@ + decimal(a as nat), "battery level: "@ + decimal(b as nat), "%"@);
                lemma_prefix_cancel("battery level: "@, decimal(a as nat), decimal(b as nat));
                law_decimal_injective(a as nat, b as nat);
            },
            (Response::AutoShutdownTime(a), Response::AutoShutdownTime(b)) => {
                lemma_suffix_cancel("auto-shutdown delay: "@ + decimal(a as nat), "auto-shutdown delay: "@ + decimal(b as nat), " minute(s)"@);
                lemma_prefix_cancel("auto-shutdown delay: "@, decimal(a as nat), decimal(b as nat));
                law_decimal_injective(a as nat, b as nat);
            },
            (Response::SidetoneVolume(a), Response::SidetoneVolume(b)) => {
                lemma_prefix_cancel("sidetone volume: "@, decimal(a as nat), decimal(b as nat));
                law_decimal_injective(a as nat, b as nat);
            },
            _ => {},
        }
    }
}


/// The words of the yes/no readings in the log: "active"/"inactive" for the
/// headset and sidetone, "charging"/"not charging", and "on"/"off" for the
/// noise gate and microphone.
pub proof fn law_flag_words(b: bool)
    ensures
        response_text(Response::IsActive(b)) == "device status: "@ + (if b { "active"@ } else { "inactive"@ }),
        response_text(Response::ChargingStatus(b)) == "charging status: "@ + (if b { "charging"@ } else { "not charging"@ }),
        response_text(Response::SidetoneStatus(b)) == "sidetone status: "@ + (if b { "active"@ } else { "inactive"@ }),
        response_text(Response::NoiseGateStatus(b)) == "noisegate status: "@ + (if b { "on"@ } else { "off"@ }),
        response_text(Response::MicrophoneStatus(b)) == "microphone status: "@ + (if b { "on"@ } else { "off"@ }),
{
}

} // verus!
