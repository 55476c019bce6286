//! The commands of the client: what each asks of the service and how it
//! shows what comes back.

pub mod countdown;
pub mod info;
pub mod schedule;
pub mod search;
pub mod top;

pub use countdown::CountdownCommand;
pub use info::InfoCommand;
pub use schedule::ScheduleCommand;
pub use search::SearchCommand;
pub use top::TopCommand;

use vstd::prelude::*;

verus! {

/// What every command has: one GraphQL document that it sends to the service.
pub trait Command {
    /// The GraphQL document of the command.
    fn query(&self) -> &'static str;
}

} // verus!
