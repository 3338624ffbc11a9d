use vstd::prelude::*;
use vstd::string::to_string_from_display_ensures;

verus! {

/// Status code returned by every entry point and carried by every error record.
#[derive(Debug, Clone, Copy, PartialEq, Eq, Structural)]
pub enum ErrorCode {
    Success,
    Panic,
    InvalidArgument,
    RuntimeInitializationFailed,
    RuntimeShutdownFailed,
    TableRegistrationFailed,
    SqlError,
    DataFrameError,
}

impl ErrorCode {
    /// The number that stands for this code across the boundary.
    pub open spec fn spec_value(self) -> int {
        match self {
            ErrorCode::Success => 0,
            ErrorCode::Panic => 1,
            ErrorCode::InvalidArgument => 2,
            ErrorCode::RuntimeInitializationFailed => 3,
            ErrorCode::RuntimeShutdownFailed => 4,
            ErrorCode::TableRegistrationFailed => 5,
            ErrorCode::SqlError => 6,
            ErrorCode::DataFrameError => 7,
        }
    }

    /// The number that stands for this code across the boundary.
    pub fn value(self) -> (r: i32)
        ensures
            r == self.spec_value(),
    {
        match self {
            ErrorCode::Success => 0,
            ErrorCode::Panic => 1,
            ErrorCode::InvalidArgument => 2,
            ErrorCode::RuntimeInitializationFailed => 3,
            ErrorCode::RuntimeShutdownFailed => 4,
            ErrorCode::TableRegistrationFailed => 5,
            ErrorCode::SqlError => 6,
            ErrorCode::DataFrameError => 7,
        }
    }

    /// The code that a number stands for, if it stands for one.
    pub fn from_value(value: i32) -> (r: Option<ErrorCode>)
        ensures
            r matches Some(c) ==> c.spec_value() == value,
            r is Some <==> 0 <= value <= 7,
    {
        match value {
            0 => Some(ErrorCode::Success),
            1 => Some(ErrorCode::Panic),
            2 => Some(ErrorCode::InvalidArgument),
            3 => Some(ErrorCode::RuntimeInitializationFailed),
            4 => Some(ErrorCode::RuntimeShutdownFailed),
            5 => Some(ErrorCode::TableRegistrationFailed),
            6 => Some(ErrorCode::SqlError),
            7 => Some(ErrorCode::DataFrameError),
            _ => None,
        }
    }
}

/// No two codes share a number, so a number identifies its code.
pub proof fn lemma_value_identifies_code(a: ErrorCode, b: ErrorCode)
    requires
        a.spec_value() == b.spec_value(),
    ensures
        a == b,
{
}

/// A typed error: a code and a human-readable message.
#[derive(Debug, Clone, PartialEq, Eq)]
pub struct ErrorInfo {
    pub code: ErrorCode,
    pub message: String,
}

impl ErrorInfo {
    /// An error record with the given code whose message is what `error`
    /// displays as. For a string that is the string itself.
    pub fn new<E: std::fmt::Display>(code: ErrorCode, error: E) -> (r: Self)
        ensures
            r.code == code,
            to_string_from_display_ensures::<E>(&error, r.message),
    {
        ErrorInfo { code, message: error.to_string() }
    }

    /// An error record with the given code and message.
    pub fn with_message(code: ErrorCode, message: &str) -> (r: Self)
        ensures
            r.code == code,
            r.message@ == message@,
    {
        ErrorInfo { code, message: message.to_owned() }
    }

    pub fn code(&self) -> (r: ErrorCode)
        ensures
            r == self.code,
    {
        self.code
    }

    pub fn message(&self) -> (r: &str)
        ensures
            r@ == self.message@,
    {
        self.message.as_str()
    }
}

} // verus!
