//! Typed error taxonomy shared by every component of the library.

use vstd::prelude::*;
use vstd::string::StringExecFns;

verus! {

/// The specific kind of failure.
///
/// The first two kinds carry the name of the native function that was
/// implicated together with a description of the sentinel or message
/// that was observed, so a caller can log and abort the current
/// operation without guessing where it failed.
#[derive(Debug)]
pub enum ErrorKind {
    /// The native error-state query returned a message after some
    /// operation; the handle is unusable from then on except to close it.
    NonNullErrorState { in_function: String, message: String },
    /// A native call returned its documented negative/error sentinel
    /// without the error state being set.
    ReturnValue { in_function: String, message: String },
    /// A numeric conversion between caller-supplied values and the
    /// fixed-width types required at a boundary failed.
    NumPrimitiveCast { message: String },
    /// A request (level index, downsample factor, clamped region)
    /// violates a documented range constraint.
    OutOfBounds { message: String },
    /// A path or name string contains an embedded terminator character
    /// incompatible with the native string convention.
    Nul { message: String },
    /// An ancillary input/output failure while validating paths.
    Io { message: String },
    /// A native byte string could not be decoded as UTF-8.
    Utf8 { message: String },
}

/// The name of the native function an error originates from, if any.
pub open spec fn spec_in_function(kind: ErrorKind) -> Option<String> {
    match kind {
        ErrorKind::NonNullErrorState { in_function, .. } => Some(in_function),
        ErrorKind::ReturnValue { in_function, .. } => Some(in_function),
        _ => None,
    }
}

/// The descriptive message attached to an error, if any.
pub open spec fn spec_message(kind: ErrorKind) -> Option<String> {
    match kind {
        ErrorKind::NonNullErrorState { message, .. } => Some(message),
        ErrorKind::ReturnValue { message, .. } => Some(message),
        ErrorKind::NumPrimitiveCast { message } => Some(message),
        ErrorKind::OutOfBounds { message } => Some(message),
        ErrorKind::Nul { message } => Some(message),
        ErrorKind::Io { message } => Some(message),
        ErrorKind::Utf8 { message } => Some(message),
    }
}

impl ErrorKind {
    /// Gives the name of the implicated native function if the error
    /// originates there.
    pub fn in_function(&self) -> (r: Option<String>)
        ensures
            r == spec_in_function(*self),
    {
        match self {
            ErrorKind::NonNullErrorState { in_function, .. } => Some(in_function.clone()),
            ErrorKind::ReturnValue { in_function, .. } => Some(in_function.clone()),
            _ => None,
        }
    }

    /// Gives the descriptive message attached to the error, if any.
    pub fn message(&self) -> (r: Option<String>)
        ensures
            r == spec_message(*self),
    {
        match self {
            ErrorKind::NonNullErrorState { message, .. } => Some(message.clone()),
            ErrorKind::ReturnValue { message, .. } => Some(message.clone()),
            ErrorKind::NumPrimitiveCast { message } => Some(message.clone()),
            ErrorKind::OutOfBounds { message } => Some(message.clone()),
            ErrorKind::Nul { message } => Some(message.clone()),
            ErrorKind::Io { message } => Some(message.clone()),
            ErrorKind::Utf8 { message } => Some(message.clone()),
        }
    }
}

/// The readable rendering of an error: a line naming what went wrong,
/// with the implicated native function and the observed message.
pub open spec fn spec_describe(kind: ErrorKind) -> Seq<char> {
    match kind {
        ErrorKind::NonNullErrorState { in_function, message } => {
            "ERROR: The slide object was in a non-null error state and has been closed.\nIn function "@
                + in_function@ + " from the native library: "@ + message@
        },
        ErrorKind::ReturnValue { in_function, message } => {
            "ERROR: Returned error value in function "@ + in_function@
                + " from the native library: "@ + message@
        },
        ErrorKind::NumPrimitiveCast { message } => {
            "ERROR: Converting between number types: "@ + message@
        },
        ErrorKind::OutOfBounds { message } => "ERROR: Value is out of bounds: "@ + message@,
        ErrorKind::Nul { message } => "ERROR: Embedded nul character: "@ + message@,
        ErrorKind::Io { message } => "ERROR: Input/output: "@ + message@,
        ErrorKind::Utf8 { message } => "ERROR: Decoding UTF-8: "@ + message@,
    }
}

impl ErrorKind {
    /// Renders the error kind as readable text.
    pub fn describe(&self) -> (r: String)
        ensures
            r@ == spec_describe(*self),
    {
        match self {
            ErrorKind::NonNullErrorState { in_function, message } => {
                let mut s =
                    "ERROR: The slide object was in a non-null error state and has been closed.\nIn function ".to_owned();
                s.append(in_function.as_str());
                s.append(" from the native library: ");
                s.append(message.as_str());
                s
            },
            ErrorKind::ReturnValue { in_function, message } => {
                let mut s = "ERROR: Returned error value in function ".to_owned();
                s.append(in_function.as_str());
                s.append(" from the native library: ");
                s.append(message.as_str());
                s
            },
            ErrorKind::NumPrimitiveCast { message } => {
                let mut s = "ERROR: Converting between number types: ".to_owned();
                s.append(message.as_str());
                s
            },
            ErrorKind::OutOfBounds { message } => {
                let mut s = "ERROR: Value is out of bounds: ".to_owned();
                s.append(message.as_str());
                s
            },
            ErrorKind::Nul { message } => {
                let mut s = "ERROR: Embedded nul character: ".to_owned();
                s.append(message.as_str());
                s
            },
            ErrorKind::Io { message } => {
                let mut s = "ERROR: Input/output: ".to_owned();
                s.append(message.as_str());
                s
            },
            ErrorKind::Utf8 { message } => {
                let mut s = "ERROR: Decoding UTF-8: ".to_owned();
                s.append(message.as_str());
                s
            },
        }
    }
}

/// An error raised by this library.
#[derive(Debug)]
pub struct Error {
    kind: Box<ErrorKind>,
}

impl Error {
    /// The kind of this error, as a mathematical value.
    pub closed spec fn spec_kind(&self) -> ErrorKind {
        *self.kind
    }

    /// Wraps a kind into an error value.
    pub fn new(kind: ErrorKind) -> (r: Error)
        ensures
            r.spec_kind() == kind,
    {
        Error { kind: Box::new(kind) }
    }

    /// Borrows the specific kind of this error.
    pub fn kind(&self) -> (r: &ErrorKind)
        ensures
            *r == self.spec_kind(),
    {
        &self.kind
    }

    /// Unwraps the error into its specific kind.
    pub fn into_kind(self) -> (r: ErrorKind)
        ensures
            r == self.spec_kind(),
    {
        *self.kind
    }

    /// Gives the name of the implicated native function, if any.
    pub fn in_function(&self) -> (r: Option<String>)
        ensures
            r == spec_in_function(self.spec_kind()),
    {
        self.kind.in_function()
    }

    /// Gives the descriptive message attached to the error, if any.
    pub fn message(&self) -> (r: Option<String>)
        ensures
            r == spec_message(self.spec_kind()),
    {
        self.kind.message()
    }

    /// Renders the error as readable text.
    pub fn describe(&self) -> (r: String)
        ensures
            r@ == spec_describe(self.spec_kind()),
    {
        self.kind.describe()
    }
}

} // verus!
