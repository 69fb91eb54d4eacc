use vstd::prelude::*;

verus! {

/// The parsed command line: one subcommand.
pub struct Cli {
    pub command: Commands,
}

/// What the user asked for.
pub enum Commands {
    /// Add a new event: its name, description, optional local time
    /// (`YYYY-MM-DD-HH-MM-SS`), time zone, and optional file path.
    Add {
        name: String,
        description: String,
        time: Option<String>,
        area: String,
        path: Option<String>,
    },
    /// List the stored events.
    List,
    /// Open one event, by name or by path.
    Tell { event_identifier: String },
}

} // verus!
