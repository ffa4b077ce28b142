use vstd::prelude::*;
use vstd::string::*;

verus! {

/// Errors of the client. Errors that come from outside libraries (SSH, SFTP,
/// file system, JSON, database) carry their rendered message.
#[derive(Debug)]
pub enum AppError {
    Ssh(String),
    Sftp(String),
    ServerNotFound(String),
    AuthFailed,
    HostKeyMismatch { expected: String, actual: String },
    Keychain(String),
    Io(String),
    Json(String),
    Db(String),
    UnknownToken,
    Other(String),
}

/// The text shown to the user for an error.
pub open spec fn error_message(e: AppError) -> Seq<char> {
    match e {
        AppError::Ssh(m) => "ssh error: "@ + m@,
        AppError::Sftp(m) => "sftp error: "@ + m@,
        AppError::ServerNotFound(id) => "server not found: "@ + id@,
        AppError::AuthFailed => "authentication failed"@,
        AppError::HostKeyMismatch { expected, actual } => "host key changed for this server: expected "@
            + expected@ + ", got "@ + actual@
            + " (possible MITM or reinstalled server — delete and re-add the profile if this is expected)"@,
        AppError::Keychain(m) => "keychain error: "@ + m@,
        AppError::Io(m) => "io error: "@ + m@,
        AppError::Json(m) => "json error: "@ + m@,
        AppError::Db(m) => "database error: "@ + m@,
        AppError::UnknownToken => "unknown or expired confirmation token"@,
        AppError::Other(m) => m@,
    }
}

impl AppError {
    /// Renders the error as the user sees it.
    pub fn message(&self) -> (s: String)
        ensures
            s@ == error_message(*self),
    {
        match self {
            AppError::Ssh(m) => String::from_str("ssh error: ").concat(m.as_str()),
            AppError::Sftp(m) => String::from_str("sftp error: ").concat(m.as_str()),
            AppError::ServerNotFound(id) => String::from_str("server not found: ").concat(id.as_str()),
            AppError::AuthFailed => String::from_str("authentication failed"),
            AppError::HostKeyMismatch { expected, actual } => {
                let s = String::from_str("host key changed for this server: expected ");
                let s = s.concat(expected.as_str());
                let s = s.concat(", got ");
                let s = s.concat(actual.as_str());
                s.concat(
                    " (possible MITM or reinstalled server — delete and re-add the profile if this is expected)",
                )
            },
            AppError::Keychain(m) => String::from_str("keychain error: ").concat(m.as_str()),
            AppError::Io(m) => String::from_str("io error: ").concat(m.as_str()),
            AppError::Json(m) => String::from_str("json error: ").concat(m.as_str()),
            AppError::Db(m) => String::from_str("database error: ").concat(m.as_str()),
            AppError::UnknownToken => String::from_str("unknown or expired confirmation token"),
            AppError::Other(m) => m.clone(),
        }
    }
}

} // verus!
