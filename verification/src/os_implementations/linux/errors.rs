use vstd::prelude::*;
use vstd::string::StringExecFns;

verus! {

/// What can go wrong on Linux.
#[derive(Debug, PartialEq)]
pub enum LinuxOSError {
    CommandError(String),
    DarkModeError(String),
    ExecutablePath(String),
    GenerateTimer(String),
    OpenEditorError,
    Os(String),
    ParseError(String),
    PathNotFound(String),
    ResolutionNotFound(String),
    Write(String),
}

impl LinuxOSError {
    /// The line shown to the user for this error.
    pub open spec fn message(self) -> Seq<char> {
        match self {
            LinuxOSError::CommandError(m) => "Unable to execute command: "@ + m@,
            LinuxOSError::DarkModeError(m) => "Unable to determine dark mode status: "@ + m@,
            LinuxOSError::ExecutablePath(m) => "Unable to determine path to current executable: "@
                + m@,
            LinuxOSError::GenerateTimer(m) => "Unable to generate time file: "@ + m@,
            LinuxOSError::OpenEditorError => "Unable to open editor"@,
            LinuxOSError::Os(m) => "OS error: "@ + m@,
            LinuxOSError::ParseError(m) => "Unable to parse output: "@ + m@,
            LinuxOSError::PathNotFound(m) => "Unable to find path: "@ + m@,
            LinuxOSError::ResolutionNotFound(m) =>
                "Unable to determine resolution of main display: "@ + m@,
            LinuxOSError::Write(m) => "Unable to write file: "@ + m@,
        }
    }

    /// Renders the error as the line shown to the user.
    pub fn to_string(&self) -> (out: String)
        ensures
            out@ == self.message(),
    {
        match self {
            LinuxOSError::CommandError(m) => String::from_str("Unable to execute command: ").concat(
                m.as_str(),
            ),
            LinuxOSError::DarkModeError(m) => String::from_str(
                "Unable to determine dark mode status: ",
            ).concat(m.as_str()),
            LinuxOSError::ExecutablePath(m) => String::from_str(
                "Unable to determine path to current executable: ",
            ).concat(m.as_str()),
            LinuxOSError::GenerateTimer(m) => String::from_str(
                "Unable to generate time file: ",
            ).concat(m.as_str()),
            LinuxOSError::OpenEditorError => String::from_str("Unable to open editor"),
            LinuxOSError::Os(m) => String::from_str("OS error: ").concat(m.as_str()),
            LinuxOSError::ParseError(m) => String::from_str("Unable to parse output: ").concat(
                m.as_str(),
            ),
            LinuxOSError::PathNotFound(m) => String::from_str("Unable to find path: ").concat(
                m.as_str(),
            ),
            LinuxOSError::ResolutionNotFound(m) => String::from_str(
                "Unable to determine resolution of main display: ",
            ).concat(m.as_str()),
            LinuxOSError::Write(m) => String::from_str("Unable to write file: ").concat(m.as_str()),
        }
    }
}

} // verus!
