use vstd::prelude::*;
use vstd::string::StringExecFns;

verus! {

/// What can go wrong while a command is built or carried out.
#[derive(Debug)]
pub enum AppError {
    DeviceNotFound,
    UnsupportedCommand,
    Validation(String),
    Internal(String),
}

impl AppError {
    /// The text shown for this error.
    pub open spec fn message_text(self) -> Seq<char> {
        match self {
            AppError::DeviceNotFound => "Device not found"@,
            AppError::UnsupportedCommand => "Unsupported command"@,
            AppError::Validation(detail) => "Validation error: "@ + detail@,
            AppError::Internal(_) => "Internal server error"@,
        }
    }

    /// Renders the error for a reader. The cause held by `Internal` is kept
    /// out of the text.
    pub fn message(&self) -> (text: String)
        ensures
            text@ == self.message_text(),
    {
        match self {
            AppError::DeviceNotFound => "Device not found".to_owned(),
            AppError::UnsupportedCommand => "Unsupported command".to_owned(),
            AppError::Validation(detail) => "Validation error: ".to_owned().concat(detail.as_str()),
            AppError::Internal(_) => "Internal server error".to_owned(),
        }
    }
}

} // verus!
