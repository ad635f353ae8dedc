use vstd::prelude::*;
use crate::command::Commands;
use crate::response::Response;
use crate::readings::{HeadsetReadings, spec_response_field};
use crate::text::{decimal, push_decimal};

verus! {

/// The values the window shows, as far as they are known.
#[derive(Debug, Clone, Copy, PartialEq, Eq, Structural)]
pub struct HeadsetGuiValues {
    pub battery_level: Option<u8>,
    pub charging_status: Option<bool>,
    pub headset_status: Option<bool>,
    pub sidetone_status: Option<bool>,
    pub sidetone_volume: Option<u8>,
    pub noisegate_status: Option<bool>,
    pub microphone_status: Option<bool>,
    pub shutdown_time: Option<u8>,
}

/// Whether the window is in touch with the worker.
#[derive(Debug, Clone, Copy, PartialEq, Eq, Structural)]
pub struct State {
    pub ready: bool,
}

/// What the window and the worker that talks to the headset send each other.
#[derive(Debug, Clone, Copy, PartialEq, Eq, Structural)]
pub enum ThreadMessage {
    /// A value the headset reported.
    HeadsetResponse(Response),
    /// A request to send a command.
    Request(Commands),
    /// A request to send a command with a parameter.
    Configure { command: Commands, param: Option<u8> },
    /// The other side is up.
    Ready,
}

/// The shown values after a response: the value of its kind is replaced.
pub open spec fn spec_apply(v: HeadsetGuiValues, resp: Response) -> HeadsetGuiValues {
    match resp {
        Response::BatteryLevel(level) => HeadsetGuiValues { battery_level: Some(level), ..v },
        Response::ChargingStatus(s) => HeadsetGuiValues { charging_status: Some(s), ..v },
        Response::IsActive(s) => HeadsetGuiValues { headset_status: Some(s), ..v },
        Response::AutoShutdownTime(t) => HeadsetGuiValues { shutdown_time: Some(t), ..v },
        Response::SidetoneStatus(s) => HeadsetGuiValues { sidetone_status: Some(s), ..v },
        Response::SidetoneVolume(vol) => HeadsetGuiValues { sidetone_volume: Some(vol), ..v },
        Response::NoiseGateStatus(s) => HeadsetGuiValues { noisegate_status: Some(s), ..v },
        Response::MicrophoneStatus(s) => HeadsetGuiValues { microphone_status: Some(s), ..v },
    }
}

/// The text of a shown number, or "loading" while it is unknown.
pub open spec fn number_text(value: Option<u8>) -> Seq<char> {
    match value {
        Some(n) => decimal(n as nat),
        None => "loading"@,
    }
}

/// The text of a shown yes/no value, or "loading" while it is unknown.
pub open spec fn flag_value_text(value: Option<bool>) -> Seq<char> {
    match value {
        Some(b) => if b { "true"@ } else { "false"@ },
        None => "loading"@,
    }
}

/// The lines of the device information panel, in order.
pub open spec fn spec_labels(v: HeadsetGuiValues) -> Seq<Seq<char>> {
    seq![
        "battery level: "@ + number_text(v.battery_level),
        "charging status: "@ + flag_value_text(v.charging_status),
        "headset status: "@ + flag_value_text(v.headset_status),
        "auto-shutdown time: "@ + number_text(v.shutdown_time),
        "sidetone status: "@ + flag_value_text(v.sidetone_status),
        "sidetone volume: "@ + number_text(v.sidetone_volume),
        "noisegate status: "@ + flag_value_text(v.noisegate_status),
        "microphone status: "@ + flag_value_text(v.microphone_status),
    ]
}

fn number_label(label: &str, value: Option<u8>) -> (s: String)
    ensures
        s@ == label@ + number_text(value),
{
    let mut s = String::from_str(label);
    match value {
        Some(n) => push_decimal(&mut s, n),
        None => s.append("loading"),
    }
    s
}

fn flag_label(label: &str, value: Option<bool>) -> (s: String)
    ensures
        s@ == label@ + flag_value_text(value),
{
    let mut s = String::from_str(label);
    match value {
        Some(b) => if b {
            s.append("true")
        } else {
            s.append("false")
        },
        None => s.append("loading"),
    }
    s
}

impl HeadsetGuiValues {
    /// Nothing known yet.
    pub fn default() -> (v: HeadsetGuiValues)
        ensures
            v.battery_level is None,
            v.charging_status is None,
            v.headset_status is None,
            v.sidetone_status is None,
            v.sidetone_volume is None,
            v.noisegate_status is None,
            v.microphone_status is None,
            v.shutdown_time is None,
    {
        HeadsetGuiValues {
            battery_level: None,
            charging_status: None,
            headset_status: None,
            sidetone_status: None,
            sidetone_volume: None,
            noisegate_status: None,
            microphone_status: None,
            shutdown_time: None,
        }
    }

    /// Shows the value a response carries in place of the one of its kind.
    pub fn apply(&mut self, resp: Response)
        ensures
            *final(self) == spec_apply(*old(self), resp),
    {
        match resp {
            Response::BatteryLevel(level) => self.battery_level = Some(level),
            Response::ChargingStatus(status) => self.charging_status = Some(status),
            Response::IsActive(status) => self.headset_status = Some(status),
            Response::AutoShutdownTime(time) => self.shutdown_time = Some(time),
            Response::SidetoneStatus(status) => self.sidetone_status = Some(status),
            Response::SidetoneVolume(volume) => self.sidetone_volume = Some(volume),
            Response::NoiseGateStatus(status) => self.noisegate_status = Some(status),
            Response::MicrophoneStatus(status) => self.microphone_status = Some(status),
        }
    }

    /// The lines of the device information panel.
    pub fn labels(&self) -> (lines: Vec<String>)
        ensures
            lines@.len() == 8,
            forall|i: int| 0 <= i < 8 ==> #[trigger] lines@[i]@ == spec_labels(*self)[i],
    {
        let mut lines = Vec::new();
        lines.push(number_label("battery level: ", self.battery_level));
        lines.push(flag_label("charging status: ", self.charging_status));
        lines.push(flag_label("headset status: ", self.headset_status));
        lines.push(number_label("auto-shutdown time: ", self.shutdown_time));
        lines.push(flag_label("sidetone status: ", self.sidetone_status));
        lines.push(number_label("sidetone volume: ", self.sidetone_volume));
        lines.push(flag_label("noisegate status: ", self.noisegate_status));
        lines.push(flag_label("microphone status: ", self.microphone_status));
        lines
    }

    /// Handles a message from the worker: a response updates the shown
    /// values, `Ready` marks the window as in touch, requests are ignored.
    pub fn handle_message(&mut self, state: &mut State, msg: ThreadMessage)
        ensures
            match msg {
                ThreadMessage::HeadsetResponse(resp) => {
                    &&& *final(self) == spec_apply(*old(self), resp)
                    &&& *final(state) == *old(state)
                },
                ThreadMessage::Ready => {
                    &&& *final(self) == *old(self)
                    &&& final(state).ready
                },
                _ => {
                    &&& *final(self) == *old(self)
                    &&& *final(state) == *old(state)
                },
            },
    {
        match msg {
            ThreadMessage::HeadsetResponse(resp) => self.apply(resp),
            ThreadMessage::Request(_) => {},
            ThreadMessage::Configure { command: _, param: _ } => {},
            ThreadMessage::Ready => state.ready = true,
        }
    }
}

impl Default for State {
    fn default() -> (s: State)
        ensures
            !s.ready,
    {
        State { ready: false }
    }
}


/// The number a kept reading shows, when it is a reading of that kind.
pub open spec fn shown_number(r: Option<Response>, kind: spec_fn(Response) -> Option<u8>) -> Option<u8> {
    match r {
        Some(resp) => kind(resp),
        None => None,
    }
}

/// The yes/no value a kept reading shows, when it is a reading of that kind.
pub open spec fn shown_flag(r: Option<Response>, kind: spec_fn(Response) -> Option<bool>) -> Option<bool> {
    match r {
        Some(resp) => kind(resp),
        None => None,
    }
}

/// Whether the window shows exactly what the readings hold.
pub open spec fn mirrors(v: HeadsetGuiValues, r: HeadsetReadings) -> bool {
    &&& v.battery_level == shown_number(
        r.battery_level,
        |x: Response| if let Response::BatteryLevel(n) = x { Some(n) } else { None },
    )
    &&& v.charging_status == shown_flag(
        r.charging_status,
        |x: Response| if let Response::ChargingStatus(b) = x { Some(b) } else { None },
    )
    &&& v.headset_status == shown_flag(
        r.headset_status,
        |x: Response| if let Response::IsActive(b) = x { Some(b) } else { None },
    )
    &&& v.sidetone_status == shown_flag(
        r.sidetone_status,
        |x: Response| if let Response::SidetoneStatus(b) = x { Some(b) } else { None },
    )
    &&& v.sidetone_volume == shown_number(
        r.sidetone_volume,
        |x: Response| if let Response::SidetoneVolume(n) = x { Some(n) } else { None },
    )
    &&& v.noisegate_status == shown_flag(
        r.noisegate_status,
        |x: Response| if let Response::NoiseGateStatus(b) = x { Some(b) } else { None },
    )
    &&& v.microphone_status == shown_flag(
        r.microphone_status,
        |x: Response| if let Response::MicrophoneStatus(b) = x { Some(b) } else { None },
    )
    &&& v.shutdown_time == shown_number(
        r.shutdown_time,
        |x: Response| if let Response::AutoShutdownTime(n) = x { Some(n) } else { None },
    )
}

/// A window that shows what the readings hold keeps doing so when the same
/// response reaches both: the readings keep it by its kind and the window
/// shows its value.
pub proof fn law_window_follows_readings(v: HeadsetGuiValues, r: HeadsetReadings, resp: Response)
    requires
        mirrors(v, r),
    ensures
        mirrors(spec_apply(v, resp), r.with(spec_response_field(resp), resp)),
{
}


/// The text lines of the window, top to bottom: the heading, the notice that
/// the device is not connected while the window is not ready, the hint, the
/// panel title, and the device information lines.
pub open spec fn spec_window_text(v: HeadsetGuiValues, state: State) -> Seq<Seq<char>> {
    seq!["hello world!"@] + (if state.ready {
        Seq::<Seq<char>>::empty()
    } else {
        seq!["device is currently not connected!\n"@]
    }) + seq!["try hovering over the gui to update the data!\n"@, "device information:"@]
        + spec_labels(v)
}

impl HeadsetGuiValues {
    /// Every text line of the window, in order.
    pub fn window_text(&self, state: &State) -> (lines: Vec<String>)
        ensures
            lines@.len() == spec_window_text(*self, *state).len(),
            forall|i: int|
                0 <= i < lines@.len() ==> #[trigger] lines@[i]@ == spec_window_text(*self, *state)[i],
    {
        let mut lines: Vec<String> = Vec::new();
        lines.push(String::from_str("hello world!"));
        if !state.ready {
            lines.push(String::from_str("device is currently not connected!\n"));
        }
        lines.push(String::from_str("try hovering over the gui to update the data!\n"));
        lines.push(String::from_str("device information:"));
        let ghost head = lines@;
        let labels = self.labels();
        let mut i: usize = 0;
        while i < labels.len()
            invariant
                labels@.len() == 8,
                forall|k: int| 0 <= k < 8 ==> #[trigger] labels@[k]@ == spec_labels(*self)[k],
                0 <= i <= 8,
                lines@.len() == head.len() + i,
                forall|k: int| 0 <= k < head.len() ==> #[trigger] lines@[k] == head[k],
                forall|k: int| 0 <= k < i ==> #[trigger] lines@[head.len() + k]@ == spec_labels(*self)[k],
            decreases 8 - i,
        {
            lines.push(labels[i].clone());
            i = i + 1;
        }
        let ghost text = spec_window_text(*self, *state);
        assert forall|k: int| 0 <= k < lines@.len() implies #[trigger] lines@[k]@ == text[k] by {
            if k >= head.len() {
                assert(lines@[head.len() + (k - head.len())]@ == spec_labels(*self)[k - head.len()]);
            }
        }
        lines
    }
}


/// The line of a number in the panel: the label, then the number in decimal,
/// or "loading" while it is unknown.
pub open spec fn number_line(label: Seq<char>, value: Option<u8>) -> Seq<char> {
    match value {
        Some(n) => label + decimal(n as nat),
        None => label + "loading"@,
    }
}

/// The line of a yes/no value in the panel: the label, then "true" or
/// "false", or "loading" while it is unknown.
pub open spec fn flag_line(label: Seq<char>, value: Option<bool>) -> Seq<char> {
    match value {
        Some(true) => label + "true"@,
        Some(false) => label + "false"@,
        None => label + "loading"@,
    }
}

/// Each line of the device information panel shows the value its label
/// names, and no other: battery level, charging status, headset status,
/// auto-shutdown time, sidetone status, sidetone volume, noise gate status,
/// microphone status, in this order.
pub proof fn law_panel_lines(v: HeadsetGuiValues)
    ensures
        spec_labels(v).len() == 8,
        spec_labels(v)[0] == number_line("battery level: "@, v.battery_level),
        spec_labels(v)[1] == flag_line("charging status: "@, v.charging_status),
        spec_labels(v)[2] == flag_line("headset status: "@, v.headset_status),
        spec_labels(v)[3] == number_line("auto-shutdown time: "@, v.shutdown_time),
        spec_labels(v)[4] == flag_line("sidetone status: "@, v.sidetone_status),
        spec_labels(v)[5] == number_line("sidetone volume: "@, v.sidetone_volume),
        spec_labels(v)[6] == flag_line("noisegate status: "@, v.noisegate_status),
        spec_labels(v)[7] == flag_line("microphone status: "@, v.microphone_status),
{
}

/// Two windows whose values differ in one field only differ in the line of
/// that field: a line never shows the value of another field.
pub proof fn law_panel_line_depends_on_its_field(v: HeadsetGuiValues, w: HeadsetGuiValues, i: int)
    requires
        0 <= i < 8,
        i == 0 || v.battery_level == w.battery_level,
        i == 1 || v.charging_status == w.charging_status,
        i == 2 || v.headset_status == w.headset_status,
        i == 3 || v.shutdown_time == w.shutdown_time,
        i == 4 || v.sidetone_status == w.sidetone_status,
        i == 5 || v.sidetone_volume == w.sidetone_volume,
        i == 6 || v.noisegate_status == w.noisegate_status,
        i == 7 || v.microphone_status == w.microphone_status,
    ensures
        forall|j: int| 0 <= j < 8 && j != i ==> spec_labels(v)[j] == spec_labels(w)[j],
{
}

} // verus!
