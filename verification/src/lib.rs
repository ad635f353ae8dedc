//! Protocol logic for the HyperX Cloud Stinger 2 Wireless headset: the
//! commands the host sends, the decoding of the reports the headset answers
//! with, the request/response exchange as a state machine, and the readings
//! the monitor keeps.

pub mod text;
pub mod command;
pub mod response;
pub mod readings;
pub mod exchange;
pub mod device;
pub mod reconnect;
pub mod gui;

pub use command::{Commands, build_report};
pub use response::{Response, HeadsetError};
pub use readings::{HeadsetReadings, InitialRound, RoundStep, StatusField, initial_queries, initial_query, LISTEN_TIMEOUT_MS};
pub use exchange::{Query, QueryAction, QueryEvent, QueryPhase};
pub use gui::{HeadsetGuiValues, State, ThreadMessage};
