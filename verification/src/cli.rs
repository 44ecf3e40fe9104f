//! The command-line surface: one request per invocation, parsed by the
//! surrounding binary and handed to the library as plain values.

use vstd::prelude::*;

verus! {

/// A whole invocation: at most one subcommand.
pub struct Cli {
    pub command: Option<Commands>,
}

/// The four subcommands.
pub enum Commands {
    Dump(Dump),
    Restore(Restore),
    Drop(Drop),
    Create(Create),
}

/// Dump a database to a file (default path when none is given).
pub struct Dump {
    pub db_name: String,
    pub db_user: String,
    pub dump_file: Option<String>,
    pub docker_container: Option<String>,
}

/// Restore a database from an existing dump file.
pub struct Restore {
    pub db_name: String,
    pub db_user: String,
    pub dump_file: String,
    pub docker_container: Option<String>,
}

/// Drop a database.
pub struct Drop {
    pub db_name: String,
    pub db_user: String,
    pub docker_container: Option<String>,
}

/// Create a database.
pub struct Create {
    pub db_name: String,
    pub db_user: String,
    pub docker_container: Option<String>,
}

} // verus!
