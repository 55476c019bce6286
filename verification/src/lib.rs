//! Timezone resolution, schedule windows and display text for an anime
//! airing-schedule client.

pub mod api;
pub mod cli;
pub mod commands;
pub mod display;
pub mod numeral;
pub mod offset;
pub mod relative;
pub mod table;
pub mod text;
pub mod utils;
pub mod window;
pub mod zones;

pub use cli::{Cli, Commands};
pub use commands::{
    Command, CountdownCommand, InfoCommand, ScheduleCommand, SearchCommand, TopCommand,
};
