//! Options of the file-serving subcommand.

use vstd::prelude::*;

verus! {

/// Options for serving a directory: its path and the port to listen on.
#[derive(Debug, Clone)]
pub struct HttpServeOpts {
    pub dir: String,
    pub port: u16,
}

/// The file-serving subcommands.
#[derive(Debug, Clone)]
pub enum HttpSubCommand {
    Serve(HttpServeOpts),
}

} // verus!
