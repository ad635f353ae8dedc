use vstd::prelude::*;
use crate::command::Commands;
use crate::exchange::message_view;
use crate::response::{Response, HeadsetError, ErrorView, spec_parse, decode, READ_EMPTY};

verus! {

/// Timeout of each read while listening for updates, in milliseconds.
pub const LISTEN_TIMEOUT_MS: i32 = 10;

/// The readings the monitor keeps about the headset, one per kind of value.
#[derive(Debug, Clone, Copy, PartialEq, Eq, Structural)]
pub enum StatusField {
    BatteryLevel,
    ChargingStatus,
    HeadsetStatus,
    SidetoneStatus,
    SidetoneVolume,
    NoiseGateStatus,
    MicrophoneStatus,
    ShutdownTime,
}

/// The reading that the answer to a command is kept in.
pub open spec fn spec_command_field(command: Commands) -> StatusField {
    match command {
        Commands::GetHeadsetStatus => StatusField::HeadsetStatus,
        Commands::GetBatteryLevel => StatusField::BatteryLevel,
        Commands::GetChargingStatus => StatusField::ChargingStatus,
        Commands::GetMicrophoneStatus => StatusField::MicrophoneStatus,
        Commands::GetSidetoneStatus => StatusField::SidetoneStatus,
        Commands::GetAutoShutdownTime => StatusField::ShutdownTime,
        Commands::GetSidetoneVolume => StatusField::SidetoneVolume,
        Commands::GetNoiseGateStatus => StatusField::NoiseGateStatus,
        Commands::SetSidetoneStatus => StatusField::SidetoneStatus,
        Commands::SetAutoShutdownTime => StatusField::ShutdownTime,
        Commands::SetSidetoneVolume => StatusField::SidetoneVolume,
    }
}

/// The reading that a response of its kind belongs to.
pub open spec fn spec_response_field(resp: Response) -> StatusField {
    match resp {
        Response::BatteryLevel(_) => StatusField::BatteryLevel,
        Response::ChargingStatus(_) => StatusField::ChargingStatus,
        Response::IsActive(_) => StatusField::HeadsetStatus,
        Response::AutoShutdownTime(_) => StatusField::ShutdownTime,
        Response::SidetoneStatus(_) => StatusField::SidetoneStatus,
        Response::SidetoneVolume(_) => StatusField::SidetoneVolume,
        Response::NoiseGateStatus(_) => StatusField::NoiseGateStatus,
        Response::MicrophoneStatus(_) => StatusField::MicrophoneStatus,
    }
}

impl Commands {
    /// The reading that the answer to this command is kept in.
    pub fn status_field(self) -> (field: StatusField)
        ensures
            field == spec_command_field(self),
    {
        match self {
            Commands::GetHeadsetStatus => StatusField::HeadsetStatus,
            Commands::GetBatteryLevel => StatusField::BatteryLevel,
            Commands::GetChargingStatus => StatusField::ChargingStatus,
            Commands::GetMicrophoneStatus => StatusField::MicrophoneStatus,
            Commands::GetSidetoneStatus => StatusField::SidetoneStatus,
            Commands::GetAutoShutdownTime => StatusField::ShutdownTime,
            Commands::GetSidetoneVolume => StatusField::SidetoneVolume,
            Commands::GetNoiseGateStatus => StatusField::NoiseGateStatus,
            Commands::SetSidetoneStatus => StatusField::SidetoneStatus,
            Commands::SetAutoShutdownTime => StatusField::ShutdownTime,
            Commands::SetSidetoneVolume => StatusField::SidetoneVolume,
        }
    }
}

impl Response {
    /// The reading that a response of this kind belongs to.
    pub fn status_field(&self) -> (field: StatusField)
        ensures
            field == spec_response_field(*self),
    {
        match self {
            Response::BatteryLevel(_) => StatusField::BatteryLevel,
            Response::ChargingStatus(_) => StatusField::ChargingStatus,
            Response::IsActive(_) => StatusField::HeadsetStatus,
            Response::AutoShutdownTime(_) => StatusField::ShutdownTime,
            Response::SidetoneStatus(_) => StatusField::SidetoneStatus,
            Response::SidetoneVolume(_) => StatusField::SidetoneVolume,
            Response::NoiseGateStatus(_) => StatusField::NoiseGateStatus,
            Response::MicrophoneStatus(_) => StatusField::MicrophoneStatus,
        }
    }
}

/// The last value the headset reported for each reading, where there was one.
#[derive(Debug, Clone, Copy, PartialEq, Eq, Structural)]
pub struct HeadsetReadings {
    pub battery_level: Option<Response>,
    pub charging_status: Option<Response>,
    pub headset_status: Option<Response>,
    pub sidetone_status: Option<Response>,
    pub sidetone_volume: Option<Response>,
    pub noisegate_status: Option<Response>,
    pub microphone_status: Option<Response>,
    pub shutdown_time: Option<Response>,
}

impl HeadsetReadings {
    /// The value kept for a reading.
    pub open spec fn get(self, field: StatusField) -> Option<Response> {
        match field {
            StatusField::BatteryLevel => self.battery_level,
            StatusField::ChargingStatus => self.charging_status,
            StatusField::HeadsetStatus => self.headset_status,
            StatusField::SidetoneStatus => self.sidetone_status,
            StatusField::SidetoneVolume => self.sidetone_volume,
            StatusField::NoiseGateStatus => self.noisegate_status,
            StatusField::MicrophoneStatus => self.microphone_status,
            StatusField::ShutdownTime => self.shutdown_time,
        }
    }

    /// These readings with `resp` kept for `field` and the others as they are.
    pub open spec fn with(self, field: StatusField, resp: Response) -> HeadsetReadings {
        match field {
            StatusField::BatteryLevel => HeadsetReadings { battery_level: Some(resp), ..self },
            StatusField::ChargingStatus => HeadsetReadings { charging_status: Some(resp), ..self },
            StatusField::HeadsetStatus => HeadsetReadings { headset_status: Some(resp), ..self },
            StatusField::SidetoneStatus => HeadsetReadings { sidetone_status: Some(resp), ..self },
            StatusField::SidetoneVolume => HeadsetReadings { sidetone_volume: Some(resp), ..self },
            StatusField::NoiseGateStatus => HeadsetReadings {
                noisegate_status: Some(resp),
                ..self
            },
            StatusField::MicrophoneStatus => HeadsetReadings {
                microphone_status: Some(resp),
                ..self
            },
            StatusField::ShutdownTime => HeadsetReadings { shutdown_time: Some(resp), ..self },
        }
    }

    /// No reading known yet.
    pub fn new() -> (r: HeadsetReadings)
        ensures
            forall|f: StatusField| r.get(f) is None,
    {
        HeadsetReadings {
            battery_level: None,
            charging_status: None,
            headset_status: None,
            sidetone_status: None,
            sidetone_volume: None,
            noisegate_status: None,
            microphone_status: None,
            shutdown_time: None,
        }
    }

    /// Keeps `resp` as the value of `field`.
    pub fn store(&mut self, field: StatusField, resp: Response)
        ensures
            *final(self) == old(self).with(field, resp),
    {
        match field {
            StatusField::BatteryLevel => self.battery_level = Some(resp),
            StatusField::ChargingStatus => self.charging_status = Some(resp),
            StatusField::HeadsetStatus => self.headset_status = Some(resp),
            StatusField::SidetoneStatus => self.sidetone_status = Some(resp),
            StatusField::SidetoneVolume => self.sidetone_volume = Some(resp),
            StatusField::NoiseGateStatus => self.noisegate_status = Some(resp),
            StatusField::MicrophoneStatus => self.microphone_status = Some(resp),
            StatusField::ShutdownTime => self.shutdown_time = Some(resp),
        }
    }

    /// Keeps the answer to `command` in the reading of that command, whatever
    /// kind of response the answer turned out to be.
    pub fn store_answer(&mut self, command: Commands, resp: Response)
        ensures
            *final(self) == old(self).with(spec_command_field(command), resp),
    {
        let field = command.status_field();
        self.store(field, resp);
    }

    /// Keeps a response the headset sent on its own in the reading of its kind.
    pub fn record(&mut self, resp: Response)
        ensures
            *final(self) == old(self).with(spec_response_field(resp), resp),
    {
        let field = resp.status_field();
        self.store(field, resp);
    }

    /// Handles one read while listening for updates. `read` is what the read
    /// returned (a byte count, or the message of the device error) and `buf`
    /// the report buffer after it. An empty read changes nothing; a read with
    /// data records the response the report carries and returns it, if the
    /// report parses, ignores it otherwise, and clears `buf` for the next
    /// read either way; a failed read ends the listening with the error
    /// returned.
    pub fn on_update(&mut self, read: Result<usize, String>, buf: &mut [u8; 20]) -> (res: Result<
        Option<Response>,
        HeadsetError,
    >)
        ensures
            final(buf)@ == buffer_after_update(message_view(read), old(buf)@),
            match read {
                Ok(n) => if n == READ_EMPTY {
                    &&& res == Ok::<Option<Response>, HeadsetError>(None)
                    &&& *final(self) == *old(self)
                    &&& final(buf)@ == old(buf)@
                } else {
                    &&& final(buf)@ == empty_report()
                    &&& match spec_parse(old(buf)@) {
                        Ok(resp) => {
                            &&& res == Ok::<Option<Response>, HeadsetError>(Some(resp))
                            &&& *final(self) == old(self).with(spec_response_field(resp), resp)
                        },
                        Err(_) => {
                            &&& res == Ok::<Option<Response>, HeadsetError>(None)
                            &&& *final(self) == *old(self)
                        },
                    }
                },
                Err(msg) => {
                    &&& *final(self) == *old(self)
                    &&& final(buf)@ == old(buf)@
                    &&& res matches Err(e) && e@ == (ErrorView::HidApiError { msg: msg@ })
                },
            },
    {
        match read {
            Ok(n) => {
                if n == READ_EMPTY {
                    return Ok(None);
                }
                let parsed = Commands::parse(buf);
                *buf = [0u8; 20];
                assert(buf@ =~= empty_report());
                match parsed {
                    Ok(resp) => {
                        self.record(resp);
                        Ok(Some(resp))
                    },
                    Err(_) => Ok(None),
                }
            },
            Err(msg) => Err(HeadsetError::HidApiError { msg }),
        }
    }
}

/// A report buffer holding nothing: twenty zero bytes.
pub open spec fn empty_report() -> Seq<u8> {
    Seq::new(20, |i: int| 0u8)
}

/// The listening buffer after `on_update`: cleared after a read with data,
/// as it was otherwise.
pub open spec fn buffer_after_update(read: Result<usize, Seq<char>>, buf: Seq<u8>) -> Seq<u8> {
    match read {
        Ok(n) => if n == READ_EMPTY {
            buf
        } else {
            empty_report()
        },
        Err(_) => buf,
    }
}

/// The buffer that listening starts with.
pub fn listen_buffer() -> (buf: [u8; 20])
    ensures
        buf@ == empty_report(),
{
    let buf = [0u8; 20];
    assert(buf@ =~= empty_report());
    buf
}

/// The buffer handed to the `i`-th read of a listening run, where `reads[j]`
/// is what the `j`-th read returned and `filled[j]` the buffer after it: the
/// first read gets `listen_buffer()`, each later one the buffer `on_update`
/// left after the read before.
pub open spec fn buffer_before_read(
    reads: Seq<Result<usize, Seq<char>>>,
    filled: Seq<Seq<u8>>,
    i: int,
) -> Seq<u8> {
    if i <= 0 {
        empty_report()
    } else {
        buffer_after_update(reads[i - 1], filled[i - 1])
    }
}

/// While listening, every read is handed a cleared buffer, so each report is
/// parsed from its own bytes and never from bytes left by an earlier one.
/// This holds of a run that starts with `listen_buffer()`, goes on after
/// successful reads only (listening ends at the first failed one), and where
/// a read that returns no data writes nothing.
pub proof fn law_listen_reads_into_cleared_buffer(
    reads: Seq<Result<usize, Seq<char>>>,
    filled: Seq<Seq<u8>>,
    i: int,
)
    requires
        reads.len() == filled.len(),
        forall|j: int| 0 <= j < reads.len() - 1 ==> (#[trigger] reads[j]) is Ok,
        forall|j: int|
            0 <= j < reads.len() && #[trigger] reads[j] == Ok::<usize, Seq<char>>(READ_EMPTY)
                ==> filled[j] == buffer_before_read(reads, filled, j),
        0 <= i < reads.len(),
    ensures
        buffer_before_read(reads, filled, i) == empty_report(),
    decreases i,
{
    if i > 0 {
        law_listen_reads_into_cleared_buffer(reads, filled, i - 1);
        assert(reads[i - 1] is Ok);
        if reads[i - 1] == Ok::<usize, Seq<char>>(READ_EMPTY) {
            assert(filled[i - 1] == buffer_before_read(reads, filled, i - 1));
        }
    }
}

/// The commands asked, in this order, to learn every reading of a newly
/// connected headset.
pub open spec fn spec_initial_queries() -> Seq<Commands> {
    seq![
        Commands::GetBatteryLevel,
        Commands::GetHeadsetStatus,
        Commands::GetChargingStatus,
        Commands::GetMicrophoneStatus,
        Commands::GetAutoShutdownTime,
        Commands::GetSidetoneStatus,
        Commands::GetSidetoneVolume,
        Commands::GetNoiseGateStatus,
    ]
}

/// The commands asked, in order, when a headset connects; the answer to each
/// goes to the reading of its command, and the first error ends the round.
pub fn initial_queries() -> (queries: Vec<Commands>)
    ensures
        queries@ == spec_initial_queries(),
{
    let mut v = Vec::new();
    v.push(Commands::GetBatteryLevel);
    v.push(Commands::GetHeadsetStatus);
    v.push(Commands::GetChargingStatus);
    v.push(Commands::GetMicrophoneStatus);
    v.push(Commands::GetAutoShutdownTime);
    v.push(Commands::GetSidetoneStatus);
    v.push(Commands::GetSidetoneVolume);
    v.push(Commands::GetNoiseGateStatus);
    assert(v@ =~= spec_initial_queries());
    v
}


/// Keeping a value for a reading changes that reading and no other.
pub proof fn law_with_changes_one_reading(
    readings: HeadsetReadings,
    field: StatusField,
    resp: Response,
    other: StatusField,
)
    ensures
        readings.with(field, resp).get(field) == Some(resp),
        other != field ==> readings.with(field, resp).get(other) == readings.get(other),
{
}

/// Every valid answer to a command is of the kind kept in that command's
/// reading, so keeping it by command and keeping it by kind agree.
pub proof fn law_answer_kind_matches_command(command: Commands, value: u8)
    requires
        decode(command, value) is Some,
    ensures
        spec_response_field(decode(command, value)->0) == spec_command_field(command),
{
}

/// The first round of queries asks for every reading exactly once.
pub proof fn law_initial_queries_cover_readings(field: StatusField)
    ensures
        exists|i: int|
            0 <= i < spec_initial_queries().len() && spec_command_field(
                #[trigger] spec_initial_queries()[i],
            ) == field,
        forall|i: int, j: int|
            0 <= i < j < spec_initial_queries().len() ==> spec_command_field(
                #[trigger] spec_initial_queries()[i],
            ) != spec_command_field(#[trigger] spec_initial_queries()[j]),
{
    let q = spec_initial_queries();
    match field {
        StatusField::BatteryLevel => assert(spec_command_field(q[0]) == field),
        StatusField::HeadsetStatus => assert(spec_command_field(q[1]) == field),
        StatusField::ChargingStatus => assert(spec_command_field(q[2]) == field),
        StatusField::MicrophoneStatus => assert(spec_command_field(q[3]) == field),
        StatusField::ShutdownTime => assert(spec_command_field(q[4]) == field),
        StatusField::SidetoneStatus => assert(spec_command_field(q[5]) == field),
        StatusField::SidetoneVolume => assert(spec_command_field(q[6]) == field),
        StatusField::NoiseGateStatus => assert(spec_command_field(q[7]) == field),
    }
}


/// The command at a position of the first round, if the round has one there.
pub fn initial_query(index: usize) -> (command: Option<Commands>)
    ensures
        index < spec_initial_queries().len() ==> command == Some(spec_initial_queries()[index as int]),
        index >= spec_initial_queries().len() ==> command is None,
{
    match index {
        0 => Some(Commands::GetBatteryLevel),
        1 => Some(Commands::GetHeadsetStatus),
        2 => Some(Commands::GetChargingStatus),
        3 => Some(Commands::GetMicrophoneStatus),
        4 => Some(Commands::GetAutoShutdownTime),
        5 => Some(Commands::GetSidetoneStatus),
        6 => Some(Commands::GetSidetoneVolume),
        7 => Some(Commands::GetNoiseGateStatus),
        _ => None,
    }
}

/// What the first round does after an answer.
pub enum RoundStep {
    /// Ask this command next.
    Ask(Commands),
    /// Every reading was asked for and answered.
    Complete,
    /// A query failed; the round ends with its error.
    Abort(HeadsetError),
}

/// The first round of queries to a newly connected headset: `asked` is the
/// position, in `initial_queries`, of the command whose answer is awaited.
#[derive(Debug, Clone, Copy, PartialEq, Eq, Structural)]
pub struct InitialRound {
    pub asked: usize,
}

impl InitialRound {
    /// Starts the round and returns the first command to ask.
    pub fn start() -> (res: (InitialRound, Commands))
        ensures
            res.0.asked == 0,
            res.1 == spec_initial_queries()[0],
    {
        (InitialRound { asked: 0 }, Commands::GetBatteryLevel)
    }

    /// Takes the outcome of the awaited query. An answer is kept in the
    /// reading of its command and the next command is asked, or the round is
    /// complete after the last one; an error ends the round with that error
    /// and keeps nothing. A round that has every answer stays complete.
    pub fn answer(&mut self, readings: &mut HeadsetReadings, outcome: Result<Response, HeadsetError>) -> (step: RoundStep)
        ensures
            old(self).asked >= spec_initial_queries().len() ==> {
                &&& step is Complete
                &&& *final(self) == *old(self)
                &&& *final(readings) == *old(readings)
            },
            old(self).asked < spec_initial_queries().len() ==> match outcome {
                Ok(resp) => {
                    &&& *final(readings) == old(readings).with(
                        spec_command_field(spec_initial_queries()[old(self).asked as int]),
                        resp,
                    )
                    &&& final(self).asked == old(self).asked + 1
                    &&& if final(self).asked < spec_initial_queries().len() {
                        step == RoundStep::Ask(spec_initial_queries()[final(self).asked as int])
                    } else {
                        step is Complete
                    }
                },
                Err(e) => {
                    &&& step == RoundStep::Abort(e)
                    &&& *final(self) == *old(self)
                    &&& *final(readings) == *old(readings)
                },
            },
    {
        let command = match initial_query(self.asked) {
            Some(command) => command,
            None => {
                return RoundStep::Complete;
            },
        };
        match outcome {
            Ok(resp) => {
                readings.store_answer(command, resp);
                self.asked = self.asked + 1;
                match initial_query(self.asked) {
                    Some(next) => RoundStep::Ask(next),
                    None => RoundStep::Complete,
                }
            },
            Err(e) => RoundStep::Abort(e),
        }
    }
}

} // verus!
