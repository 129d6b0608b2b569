//! The calling convention across the native/managed boundary: how strings
//! are passed, what a call hands over and how a reply is read.

use vstd::prelude::*;
use vstd::string::StringExecFns;
use vstd::string::StrSliceExecFns;

use crate::error::{outcome_of_status, Error, Result};

verus! {

/// A text as it crosses the boundary: unchanged where it already ends in a
/// NUL, with one NUL appended otherwise.
pub open spec fn nul_terminated_text(text: Seq<char>) -> Seq<char> {
    if text.len() > 0 && text.last() == '\0' {
        text
    } else {
        text.push('\0')
    }
}

/// Whether a text ends in a NUL.
fn ends_with_nul(value: &str) -> (ends: bool)
    ensures
        ends == (value@.len() > 0 && value@.last() == '\0'),
{
    let length = value.unicode_len();
    length > 0 && value.get_char(length - 1) == '\0'
}

/// Prepares a string parameter for the managed side, appending the NUL
/// terminator if the caller omitted it.
pub fn nul_terminated(value: &str) -> (terminated: String)
    ensures
        terminated@ == nul_terminated_text(value@),
{
    if ends_with_nul(value) {
        value.to_owned()
    } else {
        proof {
            reveal_strlit("\0");
            assert("\0"@ =~= seq!['\0']);
        }
        let terminated = String::from_str(value).concat("\0");
        assert(terminated@ =~= value@.push('\0'));
        terminated
    }
}

/// Terminating a text twice is the same as terminating it once, and the
/// result always ends in a NUL.
pub proof fn nul_termination_is_idempotent(text: Seq<char>)
    ensures
        nul_terminated_text(text).len() > 0,
        nul_terminated_text(text).last() == '\0',
        nul_terminated_text(nul_terminated_text(text)) == nul_terminated_text(text),
        text.is_prefix_of(nul_terminated_text(text)),
{
}

/// One call into the managed side, with everything that is handed over: the
/// address of the resolved host function, the handles, and each string
/// already NUL-terminated. Handles and caller-owned values travel as
/// addresses, null being zero.
#[derive(Clone, Debug, PartialEq, Eq)]
pub enum HostCall {
    /// Liveness check; the managed side writes 1.
    Ping { function: usize },
    /// Releases a class, method or object handle.
    Destroy { function: usize, handle: usize },
    /// Releases a buffer that the managed side allocated.
    Free { function: usize, buffer: usize },
    /// Opens a fresh isolated load context.
    CreateScope { function: usize },
    /// Unloads a load context and all that was loaded under it.
    Unload { function: usize, scope: usize },
    /// Loads an assembly from a file into a scope.
    LoadFromPath { function: usize, scope: usize, path: String },
    /// Looks a class up by name in an assembly.
    GetClass { function: usize, assembly: usize, name: String },
    /// Constructs an instance of a class.
    New { function: usize, class: usize },
    /// Asks whether a value of `target` can be assigned to `base`.
    IsAssignableFrom { function: usize, base: usize, target: usize },
    /// Looks a method up by name and number of parameters.
    GetMethod { function: usize, class: usize, name: String, arity: i32 },
    /// Asks for the fields and properties of a class.
    GetMetaData { function: usize, class: usize },
    /// Writes a field of an instance from a caller-owned value.
    SetFieldValue { function: usize, instance: usize, name: String, value: usize },
    /// Reads a field of an instance.
    GetFieldValue { function: usize, instance: usize, name: String },
    /// Writes a property of an instance from a caller-owned value.
    SetPropertyValue { function: usize, instance: usize, name: String, value: usize },
    /// Reads a property of an instance.
    GetPropertyValue { function: usize, instance: usize, name: String },
    /// Invokes a method; a null instance selects static dispatch.
    RuntimeInvoke { function: usize, method: usize, instance: usize, args: Vec<usize> },
}

/// What the managed side hands back from one call: the status out-parameter
/// and the pointer-sized out-parameter, null being zero.
#[derive(Clone, Copy, Debug, PartialEq, Eq, Structural)]
pub struct HostReply {
    pub status: i32,
    pub out: usize,
}

/// What a reply means where the call yields a handle: a failure named by the
/// status, nothing where the pointer is null, else the address.
pub open spec fn handle_of_reply(reply: HostReply) -> Result<Option<usize>> {
    if reply.status > 0 {
        Err(crate::error::error_of_status(reply.status as int))
    } else if reply.out == 0 {
        Ok(None)
    } else {
        Ok(Some(reply.out))
    }
}

/// What a reply to a method lookup means to the cache. A class that has no
/// such method is no failure there: the managed side says so with the status
/// of a method not found or with a null pointer, and either way there is
/// nothing. Every other positive status is the failure that it names.
pub open spec fn method_of_reply(reply: HostReply) -> Result<Option<usize>> {
    if reply.status == 2 {
        Ok(None)
    } else {
        handle_of_reply(reply)
    }
}

/// What the status of an unload means: every status but zero is a failure,
/// a positive one the error that it names and a negative one an unknown one.
pub open spec fn unload_outcome(status: int) -> Result<()> {
    if status != 0 {
        Err(crate::error::error_of_status(status))
    } else {
        Ok(())
    }
}

impl HostReply {
    /// The reply as it stands before the managed side has written to it:
    /// no failure and no pointer.
    pub fn new() -> (reply: HostReply)
        ensures
            reply.status == 0,
            reply.out == 0,
    {
        HostReply { status: 0, out: 0 }
    }

    /// Reads a reply to a call that yields nothing but a status.
    pub fn unit(&self) -> (outcome: Result<()>)
        ensures
            outcome == outcome_of_status(self.status as int),
    {
        Error::check(self.status)
    }

    /// Reads a reply to a call that yields a handle.
    pub fn handle(&self) -> (outcome: Result<Option<usize>>)
        ensures
            outcome == handle_of_reply(*self),
    {
        match Error::check(self.status) {
            Err(error) => Err(error),
            Ok(()) => if self.out == 0 {
                Ok(None)
            } else {
                Ok(Some(self.out))
            },
        }
    }

    /// Reads a reply to the unloading of a scope: every status but zero is
    /// surfaced as an error.
    pub fn unloaded(&self) -> (outcome: Result<()>)
        ensures
            outcome == unload_outcome(self.status as int),
    {
        if self.status != 0 {
            Err(Error::from(self.status))
        } else {
            Ok(())
        }
    }

    /// Reads a reply to a call that yields a truth value: the managed side
    /// writes 1 for true.
    pub fn flag(&self) -> (outcome: Result<bool>)
        ensures
            self.status > 0 ==> outcome == Err::<bool, Error>(
                crate::error::error_of_status(self.status as int),
            ),
            self.status <= 0 ==> outcome == Ok::<bool, Error>(self.out == 1),
    {
        match Error::check(self.status) {
            Err(error) => Err(error),
            Ok(()) => Ok(self.out == 1),
        }
    }
}

} // verus!
