//! The error taxonomy of the bridge and the status-code protocol.

use vstd::prelude::*;

verus! {

/// Everything that can go wrong in a call across the boundary.
///
/// The first twelve variants are reported by the managed side through a status
/// code. `Io` and `Json` arise on the native side and carry the text of the
/// failure that caused them.
#[derive(Debug)]
pub enum Error {
    ClassNotFound,
    MethodNotFound,
    FieldNotFound,
    PropertyNotFound,
    ReadonlyField,
    MissingGetter,
    MissingSetter,
    MissingRequiredArgument,
    PathNotFound,
    AssemblyNotLoaded,
    ClassNotRegistered,
    UnknownManaged,
    Io(String),
    Json(String),
}

/// The outcome of a call across the boundary.
pub type Result<T> = std::result::Result<T, Error>;

/// The error that a status code names. Codes 1 to 11 each name one error;
/// every other code collapses to `UnknownManaged`.
pub open spec fn error_of_status(status: int) -> Error {
    if status == 1 {
        Error::ClassNotFound
    } else if status == 2 {
        Error::MethodNotFound
    } else if status == 3 {
        Error::FieldNotFound
    } else if status == 4 {
        Error::PropertyNotFound
    } else if status == 5 {
        Error::ReadonlyField
    } else if status == 6 {
        Error::MissingGetter
    } else if status == 7 {
        Error::MissingSetter
    } else if status == 8 {
        Error::MissingRequiredArgument
    } else if status == 9 {
        Error::PathNotFound
    } else if status == 10 {
        Error::AssemblyNotLoaded
    } else if status == 11 {
        Error::ClassNotRegistered
    } else {
        Error::UnknownManaged
    }
}

/// What a status out-parameter means: only a positive value is a failure.
pub open spec fn outcome_of_status(status: int) -> Result<()> {
    if status > 0 {
        Err(error_of_status(status))
    } else {
        Ok(())
    }
}

/// The text shown for each error.
pub open spec fn message_of(error: Error) -> Seq<char> {
    match error {
        Error::AssemblyNotLoaded => "attempt to use assembly that was NOT loaded"@,
        Error::ClassNotRegistered => "script class is not registered with the runtime"@,
        Error::PathNotFound => "path not found"@,
        Error::ClassNotFound => "class not found"@,
        Error::MethodNotFound => "method not found"@,
        Error::FieldNotFound => "field not found"@,
        Error::PropertyNotFound => "property not found"@,
        Error::ReadonlyField => "field is readonly"@,
        Error::MissingGetter => "property is missing a getter"@,
        Error::MissingSetter => "property is missing a setter"@,
        Error::MissingRequiredArgument => "missing required argument: was `null`"@,
        Error::UnknownManaged => "an unknown managed c# error occured"@,
        Error::Io(text) => text@,
        Error::Json(text) => text@,
    }
}

impl From<i32> for Error {
    fn from(value: i32) -> (error: Error) {
        match value {
            1 => Error::ClassNotFound,
            2 => Error::MethodNotFound,
            3 => Error::FieldNotFound,
            4 => Error::PropertyNotFound,
            5 => Error::ReadonlyField,
            6 => Error::MissingGetter,
            7 => Error::MissingSetter,
            8 => Error::MissingRequiredArgument,
            9 => Error::PathNotFound,
            10 => Error::AssemblyNotLoaded,
            11 => Error::ClassNotRegistered,
            _ => Error::UnknownManaged,
        }
    }
}

impl vstd::std_specs::convert::FromSpecImpl<i32> for Error {
    open spec fn obeys_from_spec() -> bool {
        true
    }

    open spec fn from_spec(value: i32) -> Error {
        error_of_status(value as int)
    }
}

impl Error {
    /// Reads a status out-parameter: a positive status is the error it names,
    /// anything else is success.
    pub fn check(status: i32) -> (outcome: Result<()>)
        ensures
            outcome == outcome_of_status(status as int),
    {
        if status > 0 {
            Err(Error::from(status))
        } else {
            Ok(())
        }
    }

    /// The text shown for this error.
    pub fn message(&self) -> (text: String)
        ensures
            text@ == message_of(*self),
    {
        match self {
            Error::AssemblyNotLoaded => "attempt to use assembly that was NOT loaded".to_owned(),
            Error::ClassNotRegistered => "script class is not registered with the runtime".to_owned(),
            Error::PathNotFound => "path not found".to_owned(),
            Error::ClassNotFound => "class not found".to_owned(),
            Error::MethodNotFound => "method not found".to_owned(),
            Error::FieldNotFound => "field not found".to_owned(),
            Error::PropertyNotFound => "property not found".to_owned(),
            Error::ReadonlyField => "field is readonly".to_owned(),
            Error::MissingGetter => "property is missing a getter".to_owned(),
            Error::MissingSetter => "property is missing a setter".to_owned(),
            Error::MissingRequiredArgument => "missing required argument: was `null`".to_owned(),
            Error::UnknownManaged => "an unknown managed c# error occured".to_owned(),
            Error::Io(text) => text.clone(),
            Error::Json(text) => text.clone(),
        }
    }
}

} // verus!
