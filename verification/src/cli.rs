//! The command-line surface as plain data: which command was asked for,
//! with which arguments.  Parsing the process arguments into these values
//! happens outside the library; everything downstream of them is verified.

use vstd::prelude::*;

verus! {

/// One invocation: where the server is, and what to do.
#[derive(Debug)]
pub struct Cli {
    /// Host address of the server.
    pub host: String,
    /// Port of the server's control channel.
    pub port: u16,
    /// What to do.
    pub command: Command,
}

/// The commands the client understands.  The mutating family is named
/// `Modify` here; on the command line it is still spelled `set`.
#[derive(Debug)]
pub enum Command {
    Get(GetArgs),
    Modify(SetArgs),
    Delete(DeleteArgs),
    Version,
}

/// Arguments of the read-only queries.
#[derive(Debug)]
pub struct GetArgs {
    pub subcommand: GetSubcommand,
}

/// The read-only queries.
#[derive(Debug)]
pub enum GetSubcommand {
    Streams,
    Stream { stream_id: String },
    Groups,
    Group { identifier: String },
    Clients,
    Client { client_id: String },
}

/// Arguments of the mutating commands.
#[derive(Debug)]
pub struct SetArgs {
    pub subcommand: SetSubcommand,
}

/// The mutating commands: a client's fields, or a group's.
#[derive(Debug)]
pub enum SetSubcommand {
    Client {
        client_id: String,
        mute: Option<bool>,
        volume: Option<i64>,
        latency: Option<i64>,
        name: Option<String>,
        group: Option<String>,
    },
    Group {
        group_id: String,
        name: Option<String>,
        mute: Option<bool>,
        stream_id: Option<String>,
        clients: Option<String>,
    },
}

/// Arguments of the deletion commands.
#[derive(Debug)]
pub struct DeleteArgs {
    pub subcommand: DeleteSubcommand,
}

/// The deletion commands: one client, or a comma-separated batch.
#[derive(Debug)]
pub enum DeleteSubcommand {
    Client { client_id: String },
    Clients { client_ids: String },
}

} // verus!
