//! What the user asked for on the command line, and the command that answers it.

use crate::commands::{CountdownCommand, ScheduleCommand};
use vstd::prelude::*;

verus! {

/// The subcommands of the client.
pub enum Commands {
    /// View the airing schedule.
    Schedule {
        /// The day of the week to show the schedule for, as in `monday`.
        day: Option<String>,
        /// The number of days to show the schedule for.
        interval: u32,
        /// The timezone to show the schedule in, as in `UTC`, `IST` or `+05:30`.
        timezone: Option<String>,
        /// Whether to show past episodes in place of coming ones.
        past: bool,
    },
    /// Show a countdown to the next airing.
    Countdown {
        /// The timezone to show the countdown in.
        timezone: Option<String>,
    },
}

/// The command line of the client, parsed.
pub struct Cli {
    /// The subcommand that was given.
    pub command: Commands,
}

/// A command made ready to run.
pub enum Invocation {
    Schedule(ScheduleCommand),
    Countdown(CountdownCommand),
}

impl Cli {
    /// The command that answers the command line, made with what the user gave.
    pub fn invocation(&self) -> (invocation: Invocation)
        ensures
            match self.command {
                Commands::Schedule { day, interval, timezone, past } => {
                    &&& invocation matches Invocation::Schedule(command)
                    &&& command.day == day
                    &&& command.interval == interval
                    &&& command.timezone == timezone
                    &&& command.past == past
                },
                Commands::Countdown { timezone } => {
                    &&& invocation matches Invocation::Countdown(command)
                    &&& command.timezone == timezone
                },
            },
    {
        match &self.command {
            Commands::Schedule { day, interval, timezone, past } => Invocation::Schedule(
                ScheduleCommand::new(*interval, timezone.clone(), *past).with_day(day.clone()),
            ),
            Commands::Countdown { timezone } => Invocation::Countdown(
                CountdownCommand::new(timezone.clone()),
            ),
        }
    }
}

} // verus!
