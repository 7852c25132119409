use vstd::prelude::*;
use vstd::string::StringExecFns;

verus! {

/// What can go wrong on macOS.
#[derive(Debug, PartialEq)]
pub enum MacOSError {
    DarkModeError,
    Launchctl(String),
    MainDisplayNotFound,
    OpenEditorError,
    OS(String),
    ParseError(String),
    ResolutionNotFound,
    StringConversion,
    SystemProfilerError,
}

impl MacOSError {
    /// The line shown to the user for this error.
    pub open spec fn message(self) -> Seq<char> {
        match self {
            MacOSError::DarkModeError => "Unable to determine dark mode status"@,
            MacOSError::Launchctl(m) => "Launchctl error: "@ + m@,
            MacOSError::MainDisplayNotFound => "Unable to determine main display"@,
            MacOSError::OpenEditorError => "Unable to open editor"@,
            MacOSError::OS(m) => "General OS error: "@ + m@,
            MacOSError::ParseError(m) => "Unable to parse output: "@ + m@,
            MacOSError::ResolutionNotFound => "Unable to determine resolution of main display"@,
            MacOSError::StringConversion => "Unable to convert to String"@,
            MacOSError::SystemProfilerError => "Encountered error running system_profiler"@,
        }
    }

    /// Renders the error as the line shown to the user.
    pub fn to_string(&self) -> (out: String)
        ensures
            out@ == self.message(),
    {
        match self {
            MacOSError::DarkModeError => String::from_str("Unable to determine dark mode status"),
            MacOSError::Launchctl(m) => String::from_str("Launchctl error: ").concat(m.as_str()),
            MacOSError::MainDisplayNotFound => String::from_str("Unable to determine main display"),
            MacOSError::OpenEditorError => String::from_str("Unable to open editor"),
            MacOSError::OS(m) => String::from_str("General OS error: ").concat(m.as_str()),
            MacOSError::ParseError(m) => String::from_str("Unable to parse output: ").concat(
                m.as_str(),
            ),
            MacOSError::ResolutionNotFound => String::from_str(
                "Unable to determine resolution of main display",
            ),
            MacOSError::StringConversion => String::from_str("Unable to convert to String"),
            MacOSError::SystemProfilerError => String::from_str(
                "Encountered error running system_profiler",
            ),
        }
    }
}

} // verus!
