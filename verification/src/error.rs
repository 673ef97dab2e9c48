use vstd::prelude::*;
use vstd::string::StringExecFns;

verus! {

/// Status that the native library returns when a call succeeded.
pub const UHD_ERROR_NONE: u32 = 0;

pub const UHD_ERROR_INVALID_DEVICE: u32 = 1;

pub const UHD_ERROR_INDEX: u32 = 10;

pub const UHD_ERROR_KEY: u32 = 11;

pub const UHD_ERROR_NOT_IMPLEMENTED: u32 = 20;

pub const UHD_ERROR_USB: u32 = 21;

pub const UHD_ERROR_IO: u32 = 30;

pub const UHD_ERROR_OS: u32 = 31;

pub const UHD_ERROR_ASSERTION: u32 = 40;

pub const UHD_ERROR_LOOKUP: u32 = 41;

pub const UHD_ERROR_TYPE: u32 = 42;

pub const UHD_ERROR_VALUE: u32 = 43;

pub const UHD_ERROR_RUNTIME: u32 = 44;

pub const UHD_ERROR_ENVIRONMENT: u32 = 45;

pub const UHD_ERROR_SYSTEM: u32 = 46;

pub const UHD_ERROR_EXCEPT: u32 = 47;

pub const UHD_ERROR_BOOSTEXCEPT: u32 = 60;

pub const UHD_ERROR_STDEXCEPT: u32 = 70;

pub const UHD_ERROR_UNKNOWN: u32 = 100;

/// What went wrong, without the text that came with it.
#[derive(Debug, Clone, Copy, PartialEq, Eq, Structural)]
pub enum ErrorKind {
    /// Invalid device arguments
    InvalidDevice,
    /// A sequence index is out of range
    Index,
    /// Invalid key
    Key,
    /// Not implemented
    NotImplemented,
    /// USB communication problem
    Usb,
    /// Input/output error
    Io,
    /// System-related error
    Os,
    /// Assertion failed
    Assertion,
    /// Invalid index or key
    Lookup,
    /// Value has incorrect type
    Type,
    /// Invalid value
    Value,
    /// Other runtime error
    Runtime,
    /// Environment error
    Environment,
    /// System-related error
    System,
    /// Other exception of the native library
    Except,
    /// A boost::exception was thrown
    BoostExcept,
    /// A std::exception was thrown
    StdExcept,
    /// A string containing a null byte was provided
    NullByte,
    /// A string was too long to be copied out of the native library
    StringLength,
    /// A string from the native library contained invalid UTF-8
    Utf8,
    /// Unknown error
    Unknown,
}

impl ErrorKind {
    /// The sentence that describes this kind of error.
    pub open spec fn spec_description(self) -> Seq<char> {
        match self {
            ErrorKind::InvalidDevice => "Invalid device arguments"@,
            ErrorKind::Index => "uhd::index_error - A sequence index is out of range"@,
            ErrorKind::Key => "uhd::key_error - Invalid key"@,
            ErrorKind::NotImplemented => "uhd::not_implemented_error - Not implemented"@,
            ErrorKind::Usb => "uhd::usb_error - USB communication problem"@,
            ErrorKind::Io => "uhd::io_error - Input/output error"@,
            ErrorKind::Os => "uhd::os_error - System-related error"@,
            ErrorKind::Assertion => "uhd::assertion_error - Assertion failed"@,
            ErrorKind::Lookup => "uhd::lookup_error - Invalid index or key"@,
            ErrorKind::Type => "uhd::type_error - Value has incorrect type"@,
            ErrorKind::Value => "uhd::value_error - Invalid value"@,
            ErrorKind::Runtime => "uhd::runtime_error - Other runtime error"@,
            ErrorKind::Environment => "uhd::environment_error - Environment error"@,
            ErrorKind::System => "uhd::system_error - System-related error"@,
            ErrorKind::Except => "uhd::exception - Other UHD exception"@,
            ErrorKind::BoostExcept => "A boost::exception was thrown"@,
            ErrorKind::StdExcept => "A std::exception was thrown"@,
            ErrorKind::NullByte => "Null byte in input string"@,
            ErrorKind::StringLength => "String from FFI is too long"@,
            ErrorKind::Utf8 => "String from FFI contains invalid UTF-8"@,
            ErrorKind::Unknown => "Unknown error"@,
        }
    }

    /// Returns the sentence that describes this kind of error.
    pub fn description(self) -> (text: &'static str)
        ensures
            text@ == self.spec_description(),
    {
        match self {
            ErrorKind::InvalidDevice => "Invalid device arguments",
            ErrorKind::Index => "uhd::index_error - A sequence index is out of range",
            ErrorKind::Key => "uhd::key_error - Invalid key",
            ErrorKind::NotImplemented => "uhd::not_implemented_error - Not implemented",
            ErrorKind::Usb => "uhd::usb_error - USB communication problem",
            ErrorKind::Io => "uhd::io_error - Input/output error",
            ErrorKind::Os => "uhd::os_error - System-related error",
            ErrorKind::Assertion => "uhd::assertion_error - Assertion failed",
            ErrorKind::Lookup => "uhd::lookup_error - Invalid index or key",
            ErrorKind::Type => "uhd::type_error - Value has incorrect type",
            ErrorKind::Value => "uhd::value_error - Invalid value",
            ErrorKind::Runtime => "uhd::runtime_error - Other runtime error",
            ErrorKind::Environment => "uhd::environment_error - Environment error",
            ErrorKind::System => "uhd::system_error - System-related error",
            ErrorKind::Except => "uhd::exception - Other UHD exception",
            ErrorKind::BoostExcept => "A boost::exception was thrown",
            ErrorKind::StdExcept => "A std::exception was thrown",
            ErrorKind::NullByte => "Null byte in input string",
            ErrorKind::StringLength => "String from FFI is too long",
            ErrorKind::Utf8 => "String from FFI contains invalid UTF-8",
            ErrorKind::Unknown => "Unknown error",
        }
    }
}

/// An error of the binding. Every variant carries the text that the native
/// library held in its last-error slot when the error was detected, if any
/// was captured.
#[derive(Debug)]
pub enum Error {
    InvalidDevice(Option<String>),
    Index(Option<String>),
    Key(Option<String>),
    NotImplemented(Option<String>),
    Usb(Option<String>),
    Io(Option<String>),
    Os(Option<String>),
    Assertion(Option<String>),
    Lookup(Option<String>),
    Type(Option<String>),
    Value(Option<String>),
    Runtime(Option<String>),
    Environment(Option<String>),
    System(Option<String>),
    Except(Option<String>),
    BoostExcept(Option<String>),
    StdExcept(Option<String>),
    NullByte(Option<String>),
    StringLength(Option<String>),
    Utf8(Option<String>),
    Unknown(Option<String>),
}

/// What an error holds.
pub struct ErrorView {
    pub kind: ErrorKind,
    /// The characters of the text that the error carries.
    pub message: Option<Seq<char>>,
}

impl View for Error {
    type V = ErrorView;

    open spec fn view(&self) -> ErrorView {
        ErrorView { kind: self.spec_kind(), message: self.spec_message() }
    }
}

impl Clone for Error {
    /// A copy of this error: the same kind, and a text of the same
    /// characters.
    fn clone(&self) -> (copy: Self)
        ensures
            copy@ == self@,
    {
        let message = match self.message() {
            Some(text) => Some(text.to_owned()),
            None => None,
        };
        Error::new(self.kind(), message)
    }
}

/// The characters of an optional text.
pub open spec fn text_view(text: Option<String>) -> Option<Seq<char>> {
    match text {
        Some(s) => Some(s@),
        None => None,
    }
}

/// The kind that a failing native status stands for. Every status that the
/// native library does not define counts as `Unknown`.
pub open spec fn kind_of_status(status: u32) -> ErrorKind {
    if status == UHD_ERROR_INVALID_DEVICE {
        ErrorKind::InvalidDevice
    } else if status == UHD_ERROR_INDEX {
        ErrorKind::Index
    } else if status == UHD_ERROR_KEY {
        ErrorKind::Key
    } else if status == UHD_ERROR_NOT_IMPLEMENTED {
        ErrorKind::NotImplemented
    } else if status == UHD_ERROR_USB {
        ErrorKind::Usb
    } else if status == UHD_ERROR_IO {
        ErrorKind::Io
    } else if status == UHD_ERROR_OS {
        ErrorKind::Os
    } else if status == UHD_ERROR_ASSERTION {
        ErrorKind::Assertion
    } else if status == UHD_ERROR_LOOKUP {
        ErrorKind::Lookup
    } else if status == UHD_ERROR_TYPE {
        ErrorKind::Type
    } else if status == UHD_ERROR_VALUE {
        ErrorKind::Value
    } else if status == UHD_ERROR_RUNTIME {
        ErrorKind::Runtime
    } else if status == UHD_ERROR_ENVIRONMENT {
        ErrorKind::Environment
    } else if status == UHD_ERROR_SYSTEM {
        ErrorKind::System
    } else if status == UHD_ERROR_EXCEPT {
        ErrorKind::Except
    } else if status == UHD_ERROR_BOOSTEXCEPT {
        ErrorKind::BoostExcept
    } else if status == UHD_ERROR_STDEXCEPT {
        ErrorKind::StdExcept
    } else {
        ErrorKind::Unknown
    }
}

impl Error {
    /// The kind of this error.
    pub open spec fn spec_kind(self) -> ErrorKind {
        match self {
            Error::InvalidDevice(_) => ErrorKind::InvalidDevice,
            Error::Index(_) => ErrorKind::Index,
            Error::Key(_) => ErrorKind::Key,
            Error::NotImplemented(_) => ErrorKind::NotImplemented,
            Error::Usb(_) => ErrorKind::Usb,
            Error::Io(_) => ErrorKind::Io,
            Error::Os(_) => ErrorKind::Os,
            Error::Assertion(_) => ErrorKind::Assertion,
            Error::Lookup(_) => ErrorKind::Lookup,
            Error::Type(_) => ErrorKind::Type,
            Error::Value(_) => ErrorKind::Value,
            Error::Runtime(_) => ErrorKind::Runtime,
            Error::Environment(_) => ErrorKind::Environment,
            Error::System(_) => ErrorKind::System,
            Error::Except(_) => ErrorKind::Except,
            Error::BoostExcept(_) => ErrorKind::BoostExcept,
            Error::StdExcept(_) => ErrorKind::StdExcept,
            Error::NullByte(_) => ErrorKind::NullByte,
            Error::StringLength(_) => ErrorKind::StringLength,
            Error::Utf8(_) => ErrorKind::Utf8,
            Error::Unknown(_) => ErrorKind::Unknown,
        }
    }

    /// The text that this error carries.
    pub open spec fn spec_text(self) -> Option<String> {
        match self {
            Error::InvalidDevice(m) => m,
            Error::Index(m) => m,
            Error::Key(m) => m,
            Error::NotImplemented(m) => m,
            Error::Usb(m) => m,
            Error::Io(m) => m,
            Error::Os(m) => m,
            Error::Assertion(m) => m,
            Error::Lookup(m) => m,
            Error::Type(m) => m,
            Error::Value(m) => m,
            Error::Runtime(m) => m,
            Error::Environment(m) => m,
            Error::System(m) => m,
            Error::Except(m) => m,
            Error::BoostExcept(m) => m,
            Error::StdExcept(m) => m,
            Error::NullByte(m) => m,
            Error::StringLength(m) => m,
            Error::Utf8(m) => m,
            Error::Unknown(m) => m,
        }
    }

    /// The characters of the text that this error carries.
    pub open spec fn spec_message(self) -> Option<Seq<char>> {
        text_view(self.spec_text())
    }

    /// Makes the error of the given kind that carries the given text.
    pub fn new(kind: ErrorKind, message: Option<String>) -> (error: Self)
        ensures
            error.spec_kind() == kind,
            error.spec_text() == message,
    {
        match kind {
            ErrorKind::InvalidDevice => Error::InvalidDevice(message),
            ErrorKind::Index => Error::Index(message),
            ErrorKind::Key => Error::Key(message),
            ErrorKind::NotImplemented => Error::NotImplemented(message),
            ErrorKind::Usb => Error::Usb(message),
            ErrorKind::Io => Error::Io(message),
            ErrorKind::Os => Error::Os(message),
            ErrorKind::Assertion => Error::Assertion(message),
            ErrorKind::Lookup => Error::Lookup(message),
            ErrorKind::Type => Error::Type(message),
            ErrorKind::Value => Error::Value(message),
            ErrorKind::Runtime => Error::Runtime(message),
            ErrorKind::Environment => Error::Environment(message),
            ErrorKind::System => Error::System(message),
            ErrorKind::Except => Error::Except(message),
            ErrorKind::BoostExcept => Error::BoostExcept(message),
            ErrorKind::StdExcept => Error::StdExcept(message),
            ErrorKind::NullByte => Error::NullByte(message),
            ErrorKind::StringLength => Error::StringLength(message),
            ErrorKind::Utf8 => Error::Utf8(message),
            ErrorKind::Unknown => Error::Unknown(message),
        }
    }

    /// Returns the kind of this error.
    pub fn kind(&self) -> (kind: ErrorKind)
        ensures
            kind == self.spec_kind(),
    {
        match self {
            Error::InvalidDevice(_) => ErrorKind::InvalidDevice,
            Error::Index(_) => ErrorKind::Index,
            Error::Key(_) => ErrorKind::Key,
            Error::NotImplemented(_) => ErrorKind::NotImplemented,
            Error::Usb(_) => ErrorKind::Usb,
            Error::Io(_) => ErrorKind::Io,
            Error::Os(_) => ErrorKind::Os,
            Error::Assertion(_) => ErrorKind::Assertion,
            Error::Lookup(_) => ErrorKind::Lookup,
            Error::Type(_) => ErrorKind::Type,
            Error::Value(_) => ErrorKind::Value,
            Error::Runtime(_) => ErrorKind::Runtime,
            Error::Environment(_) => ErrorKind::Environment,
            Error::System(_) => ErrorKind::System,
            Error::Except(_) => ErrorKind::Except,
            Error::BoostExcept(_) => ErrorKind::BoostExcept,
            Error::StdExcept(_) => ErrorKind::StdExcept,
            Error::NullByte(_) => ErrorKind::NullByte,
            Error::StringLength(_) => ErrorKind::StringLength,
            Error::Utf8(_) => ErrorKind::Utf8,
            Error::Unknown(_) => ErrorKind::Unknown,
        }
    }

    /// Returns the text that the native library held when the error was
    /// detected, if any was captured.
    pub fn message(&self) -> (message: Option<&str>)
        ensures
            message is Some == self.spec_message() is Some,
            message is Some ==> message->0@ == self.spec_message()->0,
    {
        let text: &Option<String> = match self {
            Error::InvalidDevice(m) => m,
            Error::Index(m) => m,
            Error::Key(m) => m,
            Error::NotImplemented(m) => m,
            Error::Usb(m) => m,
            Error::Io(m) => m,
            Error::Os(m) => m,
            Error::Assertion(m) => m,
            Error::Lookup(m) => m,
            Error::Type(m) => m,
            Error::Value(m) => m,
            Error::Runtime(m) => m,
            Error::Environment(m) => m,
            Error::System(m) => m,
            Error::Except(m) => m,
            Error::BoostExcept(m) => m,
            Error::StdExcept(m) => m,
            Error::NullByte(m) => m,
            Error::StringLength(m) => m,
            Error::Utf8(m) => m,
            Error::Unknown(m) => m,
        };
        match text {
            Some(s) => Some(s.as_str()),
            None => None,
        }
    }

    /// What `to_string` gives: the sentence for the kind, and behind it, where
    /// the error carries a text that is not empty, a colon, a space and that
    /// text.
    pub open spec fn spec_to_string(self) -> Seq<char> {
        match self.spec_message() {
            Some(message) if message.len() > 0 => self.spec_kind().spec_description() + ": "@
                + message,
            _ => self.spec_kind().spec_description(),
        }
    }

    /// Describes this error in words.
    pub fn to_string(&self) -> (text: String)
        ensures
            text@ == self.spec_to_string(),
    {
        let mut text = String::from_str(self.kind().description());
        match self.message() {
            Some(message) => {
                if !message.is_empty() {
                    text.append(": ");
                    text.append(message);
                }
            },
            None => {},
        }
        text
    }

    /// Gives this error the text captured from the native library's
    /// last-error slot; the kind stays.
    pub fn with_message(self, message: Option<String>) -> (error: Self)
        ensures
            error.spec_kind() == self.spec_kind(),
            error.spec_text() == message,
    {
        Error::new(self.kind(), message)
    }
}

/// Converts a status of the native library into a result: `Ok` for the
/// status of success and for no other, else the error of the kind that the
/// status stands for, with no text.
pub fn check_status(status: u32) -> (result: Result<(), Error>)
    ensures
        result is Ok <==> status == UHD_ERROR_NONE,
        result is Err ==> result->Err_0.spec_kind() == kind_of_status(status),
        result is Err ==> result->Err_0.spec_text() is None,
{
    let kind = match status {
        UHD_ERROR_NONE => { return Ok(()); },
        UHD_ERROR_INVALID_DEVICE => ErrorKind::InvalidDevice,
        UHD_ERROR_INDEX => ErrorKind::Index,
        UHD_ERROR_KEY => ErrorKind::Key,
        UHD_ERROR_NOT_IMPLEMENTED => ErrorKind::NotImplemented,
        UHD_ERROR_USB => ErrorKind::Usb,
        UHD_ERROR_IO => ErrorKind::Io,
        UHD_ERROR_OS => ErrorKind::Os,
        UHD_ERROR_ASSERTION => ErrorKind::Assertion,
        UHD_ERROR_LOOKUP => ErrorKind::Lookup,
        UHD_ERROR_TYPE => ErrorKind::Type,
        UHD_ERROR_VALUE => ErrorKind::Value,
        UHD_ERROR_RUNTIME => ErrorKind::Runtime,
        UHD_ERROR_ENVIRONMENT => ErrorKind::Environment,
        UHD_ERROR_SYSTEM => ErrorKind::System,
        UHD_ERROR_EXCEPT => ErrorKind::Except,
        UHD_ERROR_BOOSTEXCEPT => ErrorKind::BoostExcept,
        UHD_ERROR_STDEXCEPT => ErrorKind::StdExcept,
        _ => ErrorKind::Unknown,
    };
    Err(Error::new(kind, None))
}

/// A native status that can be turned into a result.
pub trait FromUhdStatus {
    fn into_result(self) -> Result<(), Error>;
}

impl FromUhdStatus for u32 {
    /// As `check_status` does.
    fn into_result(self) -> (result: Result<(), Error>)
        ensures
            result is Ok <==> self == UHD_ERROR_NONE,
            result is Err ==> result->Err_0.spec_kind() == kind_of_status(self),
            result is Err ==> result->Err_0.spec_text() is None,
    {
        check_status(self)
    }
}

} // verus!
