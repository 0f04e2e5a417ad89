use vstd::prelude::*;
use vstd::string::StringExecFns;

verus! {

/// The errors that reach a caller of the library.
#[derive(Debug, Clone)]
pub enum Error {
    Tauri(String),
    /// The dialog surface could not be built.
    WindowNotFound(String),
    UrlParse(String),
    DialogSetup(String),
    /// A finish request named a surface with no registered session.
    SessionNotFound(String),
}

pub type Result<T> = core::result::Result<T, Error>;

/// The text that an error is shown as.
pub open spec fn error_text(e: Error) -> Seq<char> {
    match e {
        Error::Tauri(m) => "Tauri error: "@ + m@,
        Error::WindowNotFound(m) => "Window not found: "@ + m@,
        Error::UrlParse(m) => "Url parse error: "@ + m@,
        Error::DialogSetup(m) => "Dialog setup error: "@ + m@,
        Error::SessionNotFound(m) => "Session not found: "@ + m@,
    }
}

impl Error {
    /// The error as text, its kind followed by its detail.
    pub fn message(&self) -> (r: String)
        ensures
            r@ == error_text(*self),
    {
        match self {
            Error::Tauri(m) => String::from_str("Tauri error: ").concat(m.as_str()),
            Error::WindowNotFound(m) => String::from_str("Window not found: ").concat(m.as_str()),
            Error::UrlParse(m) => String::from_str("Url parse error: ").concat(m.as_str()),
            Error::DialogSetup(m) => String::from_str("Dialog setup error: ").concat(m.as_str()),
            Error::SessionNotFound(m) => String::from_str("Session not found: ").concat(
                m.as_str(),
            ),
        }
    }
}

} // verus!
