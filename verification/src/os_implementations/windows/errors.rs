use vstd::prelude::*;
use vstd::string::StringExecFns;

verus! {

/// What can go wrong on Windows.
#[derive(Debug, PartialEq)]
pub enum WindowsError {
    CommandError(String),
    DarkModeError(String),
    ExecutablePath(String),
    OpenEditorError(String),
    UpdateDesktopError(String),
}

impl WindowsError {
    /// The line shown to the user for this error.
    pub open spec fn message(self) -> Seq<char> {
        match self {
            WindowsError::CommandError(m) => "Unable to execute command: "@ + m@,
            WindowsError::DarkModeError(m) => "Unable to determine dark mode status: "@ + m@,
            WindowsError::ExecutablePath(m) => "Unable to determine path to current executable: "@
                + m@,
            WindowsError::OpenEditorError(m) => "Unable to open file in default editor: "@ + m@,
            WindowsError::UpdateDesktopError(m) => "Unable to update desktop wallpaper: "@ + m@,
        }
    }

    /// Renders the error as the line shown to the user.
    pub fn to_string(&self) -> (out: String)
        ensures
            out@ == self.message(),
    {
        match self {
            WindowsError::CommandError(m) => String::from_str("Unable to execute command: ").concat(
                m.as_str(),
            ),
            WindowsError::DarkModeError(m) => String::from_str(
                "Unable to determine dark mode status: ",
            ).concat(m.as_str()),
            WindowsError::ExecutablePath(m) => String::from_str(
                "Unable to determine path to current executable: ",
            ).concat(m.as_str()),
            WindowsError::OpenEditorError(m) => String::from_str(
                "Unable to open file in default editor: ",
            ).concat(m.as_str()),
            WindowsError::UpdateDesktopError(m) => String::from_str(
                "Unable to update desktop wallpaper: ",
            ).concat(m.as_str()),
        }
    }
}

} // verus!
