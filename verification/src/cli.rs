//! The command-line surface of the tool, as plain data.
//!
//! The surrounding process parses the actual arguments and fills these
//! in; the library only consumes the resolved values.

use vstd::prelude::*;

verus! {

/// Arguments of the upload command: where to send which file.
pub struct UploadOpt {
    pub ip: String,
    pub port: u16,
    pub file: String,
    pub task: String,
}

/// Arguments of the start command: where to bind, and where the
/// config file lies.
pub struct StartOpt {
    pub host: String,
    pub ip: String,
    pub port: u16,
    pub config: String,
}

/// The chosen mode: upload a file, or start the server.
pub enum Command {
    Upload(UploadOpt),
    Start(StartOpt),
}

/// The parsed command line.
pub struct Opt {
    pub command: Command,
}

} // verus!
