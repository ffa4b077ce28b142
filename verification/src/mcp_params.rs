//! The arguments of the MCP tools.
use vstd::prelude::*;
use vstd::string::*;

verus! {

/// Names a saved server.
#[derive(Debug)]
pub struct ServerIdParams {
    pub server_id: String,
}

/// A shell command for a server.
#[derive(Debug)]
pub struct RunCommandParams {
    pub server_id: String,
    pub command: String,
}

/// A confirmation token handed out for a held-back command.
#[derive(Debug)]
pub struct ConfirmParams {
    pub token: String,
}

/// A directory on a server; the path defaults to the login directory.
#[derive(Debug)]
pub struct ListDirectoryParams {
    pub server_id: String,
    pub path: String,
}

/// A file to send: `local_path` is on this machine, `remote_path` on the server.
#[derive(Debug)]
pub struct UploadFileParams {
    pub server_id: String,
    pub local_path: String,
    pub remote_path: String,
}

/// A file to fetch: `remote_path` is on the server, `local_path` on this machine.
#[derive(Debug)]
pub struct DownloadFileParams {
    pub server_id: String,
    pub remote_path: String,
    pub local_path: String,
}

/// The directory listed when none is named: the login directory, ".".
pub fn default_dir_path() -> (s: String)
    ensures
        s@ == seq!['.'],
{
    let s = String::from_str(".");
    proof {
        reveal_strlit(".");
    }
    s
}

} // verus!
