//! Move-only wrappers around the opaque handles of the managed side.
//!
//! A wrapper holds the address of the handle and, where the handle is
//! released on its own, the address of the host function that releases it.
//! None of them can be copied, and releasing one consumes it: a handle is
//! given up at most once, and by exactly the call that its wrapper yields.

use vstd::prelude::*;

use crate::error::{error_of_status, Error, Result};
use crate::marshal::{nul_terminated, nul_terminated_text, HostCall, HostReply};

verus! {

/// Anything that can pass itself into a host call.
pub trait Wrapper {
    /// The address of the handle, zero for null.
    spec fn address(&self) -> usize;

    fn as_ptr(&self) -> (pointer: usize)
        ensures
            pointer == self.address(),
    ;
}

/// An isolated, unloadable load context.
#[derive(Debug)]
pub struct Scope {
    inner: usize,
    unload: usize,
}

impl Scope {
    /// The address of the host function that unloads the scope.
    pub closed spec fn unloader(&self) -> usize {
        self.unload
    }

    /// Wraps a load context together with the host function that unloads it.
    pub fn new(inner: usize, unload: usize) -> (scope: Scope)
        ensures
            scope.address() == inner,
            scope.unloader() == unload,
    {
        Scope { inner, unload }
    }

    /// Gives the scope up: the one call that unloads it.
    pub fn unload(self) -> (call: HostCall)
        ensures
            call == (HostCall::Unload { function: self.unloader(), scope: self.address() }),
    {
        HostCall::Unload { function: self.unload, scope: self.inner }
    }
}

impl Wrapper for Scope {
    closed spec fn address(&self) -> usize {
        self.inner
    }

    fn as_ptr(&self) -> (pointer: usize) {
        self.inner
    }
}

/// A loaded managed module. It is never released on its own: its memory is
/// reclaimed when the scope that owns it unloads.
#[derive(Debug)]
pub struct Assembly {
    inner: usize,
}

impl Assembly {
    pub(crate) fn new(inner: usize) -> (assembly: Assembly)
        ensures
            assembly.address() == inner,
    {
        Assembly { inner }
    }
}

impl Wrapper for Assembly {
    closed spec fn address(&self) -> usize {
        self.inner
    }

    fn as_ptr(&self) -> (pointer: usize) {
        self.inner
    }
}

/// A type descriptor, the key for member resolution.
#[derive(Debug)]
pub struct Class {
    inner: usize,
    destroy: usize,
}

impl Class {
    /// The address of the host function that releases the handle.
    pub closed spec fn destroyer(&self) -> usize {
        self.destroy
    }

    pub(crate) fn new(inner: usize, destroy: usize) -> (class: Class)
        ensures
            class.address() == inner,
            class.destroyer() == destroy,
    {
        Class { inner, destroy }
    }

    /// Gives the class up: the one call that releases its handle.
    pub fn release(self) -> (call: HostCall)
        ensures
            call == (HostCall::Destroy { function: self.destroyer(), handle: self.address() }),
    {
        HostCall::Destroy { function: self.destroy, handle: self.inner }
    }
}

impl Wrapper for Class {
    closed spec fn address(&self) -> usize {
        self.inner
    }

    fn as_ptr(&self) -> (pointer: usize) {
        self.inner
    }
}

/// A bound member descriptor, resolved by class, name and arity.
#[derive(Debug)]
pub struct Method {
    inner: usize,
    destroy: usize,
}

impl Method {
    /// The address of the host function that releases the handle.
    pub closed spec fn destroyer(&self) -> usize {
        self.destroy
    }

    pub(crate) fn new(inner: usize, destroy: usize) -> (method: Method)
        ensures
            method.address() == inner,
            method.destroyer() == destroy,
    {
        Method { inner, destroy }
    }

    /// Gives the method up: the one call that releases its handle.
    pub fn release(self) -> (call: HostCall)
        ensures
            call == (HostCall::Destroy { function: self.destroyer(), handle: self.address() }),
    {
        HostCall::Destroy { function: self.destroy, handle: self.inner }
    }
}

impl Wrapper for Method {
    closed spec fn address(&self) -> usize {
        self.inner
    }

    fn as_ptr(&self) -> (pointer: usize) {
        self.inner
    }
}

/// The host functions that an instance is bound with when it is created.
#[derive(Clone, Copy, Debug, PartialEq, Eq, Structural)]
pub struct ObjectFunctions {
    pub get_field_value: usize,
    pub set_field_value: usize,
    pub get_property_value: usize,
    pub set_property_value: usize,
    pub destroy: usize,
    pub free: usize,
}

/// An allocated instance of a class.
#[derive(Debug)]
pub struct Object {
    inner: usize,
    functions: ObjectFunctions,
}

/// A buffer that the managed side allocated for a returned value: a
/// NUL-terminated, UTF-8, JSON-encoded text. It is borrowed, and has to be
/// handed back with the call that `release` yields.
#[derive(Debug)]
pub struct Payload {
    buffer: usize,
    free: usize,
}

impl Payload {
    /// The address of the buffer.
    pub closed spec fn buffer(&self) -> usize {
        self.buffer
    }

    /// The address of the host function that frees the buffer.
    pub closed spec fn freer(&self) -> usize {
        self.free
    }

    pub(crate) fn new(buffer: usize, free: usize) -> (payload: Payload)
        ensures
            payload.buffer() == buffer,
            payload.freer() == free,
    {
        Payload { buffer, free }
    }

    /// Gives the buffer back: the one call that frees it.
    pub fn release(self) -> (call: HostCall)
        ensures
            call == (HostCall::Free { function: self.freer(), buffer: self.buffer() }),
    {
        HostCall::Free { function: self.free, buffer: self.buffer }
    }
}

impl Wrapper for Payload {
    closed spec fn address(&self) -> usize {
        self.buffer
    }

    fn as_ptr(&self) -> (pointer: usize) {
        self.buffer
    }
}

/// What a reply means where the call yields a buffer: a failure named by the
/// status, nothing where the pointer is null, else the buffer to decode.
pub open spec fn payload_of_reply(reply: HostReply, free: usize, outcome: Result<Option<Payload>>) -> bool {
    if reply.status > 0 {
        outcome == Err::<Option<Payload>, Error>(error_of_status(reply.status as int))
    } else if reply.out == 0 {
        outcome == Ok::<Option<Payload>, Error>(None)
    } else {
        outcome matches Ok(Some(payload)) && payload.buffer() == reply.out && payload.freer() == free
    }
}

/// Reads a reply to a call that yields a buffer, binding the buffer with the
/// host function that frees it.
pub fn payload_from(reply: HostReply, free: usize) -> (outcome: Result<Option<Payload>>)
    ensures
        payload_of_reply(reply, free, outcome),
{
    match reply.handle() {
        Err(error) => Err(error),
        Ok(None) => Ok(None),
        Ok(Some(buffer)) => Ok(Some(Payload::new(buffer, free))),
    }
}

/// What becomes of a value that was read and decoded: the value, or the
/// decoder's complaint as a `Json` error.
pub open spec fn decoded_value<A>(verdict: std::result::Result<A, String>) -> Result<Option<A>> {
    match verdict {
        Ok(value) => Ok(Some(value)),
        Err(text) => Err(Error::Json(text)),
    }
}

/// Turns the decoder's verdict on a payload into the result of the read.
pub fn decoded<A>(verdict: std::result::Result<A, String>) -> (outcome: Result<Option<A>>)
    ensures
        outcome == decoded_value(verdict),
{
    match verdict {
        Ok(value) => Ok(Some(value)),
        Err(text) => Err(Error::Json(text)),
    }
}

impl Object {
    /// The host functions that the instance is bound with.
    pub closed spec fn functions(&self) -> ObjectFunctions {
        self.functions
    }

    pub(crate) fn new(inner: usize, functions: ObjectFunctions) -> (object: Object)
        ensures
            object.address() == inner,
            object.functions() == functions,
    {
        Object { inner, functions }
    }

    /// The call that writes the field `name` from the caller-owned `value`.
    pub fn set_field_value(&self, name: &str, value: usize) -> (call: HostCall)
        ensures
            (call matches HostCall::SetFieldValue { function, instance, name: passed, value: handed }
                && function == self.functions().set_field_value
                && instance == self.address()
                && passed@ == nul_terminated_text(name@)
                && handed == value),
    {
        HostCall::SetFieldValue {
            function: self.functions.set_field_value,
            instance: self.inner,
            name: nul_terminated(name),
            value,
        }
    }

    /// The call that reads the field `name`.
    pub fn get_field_value(&self, name: &str) -> (call: HostCall)
        ensures
            (call matches HostCall::GetFieldValue { function, instance, name: passed }
                && function == self.functions().get_field_value
                && instance == self.address()
                && passed@ == nul_terminated_text(name@)),
    {
        HostCall::GetFieldValue {
            function: self.functions.get_field_value,
            instance: self.inner,
            name: nul_terminated(name),
        }
    }

    /// The call that writes the property `name` from the caller-owned `value`.
    pub fn set_property_value(&self, name: &str, value: usize) -> (call: HostCall)
        ensures
            (call matches HostCall::SetPropertyValue { function, instance, name: passed, value: handed }
                && function == self.functions().set_property_value
                && instance == self.address()
                && passed@ == nul_terminated_text(name@)
                && handed == value),
    {
        HostCall::SetPropertyValue {
            function: self.functions.set_property_value,
            instance: self.inner,
            name: nul_terminated(name),
            value,
        }
    }

    /// The call that reads the property `name`.
    pub fn get_property_value(&self, name: &str) -> (call: HostCall)
        ensures
            (call matches HostCall::GetPropertyValue { function, instance, name: passed }
                && function == self.functions().get_property_value
                && instance == self.address()
                && passed@ == nul_terminated_text(name@)),
    {
        HostCall::GetPropertyValue {
            function: self.functions.get_property_value,
            instance: self.inner,
            name: nul_terminated(name),
        }
    }

    /// Reads the reply to a write of a field or a property.
    pub fn written(&self, reply: HostReply) -> (outcome: Result<()>)
        ensures
            outcome == crate::error::outcome_of_status(reply.status as int),
    {
        reply.unit()
    }

    /// Reads the reply to a read of a field or a property: the buffer that
    /// holds the value, bound with this instance's `free`.
    pub fn read(&self, reply: HostReply) -> (outcome: Result<Option<Payload>>)
        ensures
            payload_of_reply(reply, self.functions().free, outcome),
    {
        payload_from(reply, self.functions.free)
    }

    /// Gives the instance up: the one call that releases its handle.
    pub fn release(self) -> (call: HostCall)
        ensures
            call == (HostCall::Destroy { function: self.functions().destroy, handle: self.address() }),
    {
        HostCall::Destroy { function: self.functions.destroy, handle: self.inner }
    }
}

impl Wrapper for Object {
    closed spec fn address(&self) -> usize {
        self.inner
    }

    fn as_ptr(&self) -> (pointer: usize) {
        self.inner
    }
}

/// A value that can be handed to the managed side as one argument.
pub trait ManagedParam {
    /// The address under which the managed side finds the value.
    fn into_managed_param(self) -> usize;
}

impl ManagedParam for Object {
    fn into_managed_param(self) -> (pointer: usize)
        ensures
            pointer == self.address(),
    {
        self.as_ptr()
    }
}

/// The ordered argument list of an invocation: nothing, one argument, or a
/// pair of arguments.
pub trait ManagedParams {
    /// Whether a list of addresses is one that these arguments make: as
    /// many addresses as arguments, each argument's own, in their order.
    spec fn lists(&self, params: Seq<usize>) -> bool;

    fn into_managed_params(self) -> (params: Vec<usize>)
        ensures
            self.lists(params@),
    ;
}

impl ManagedParams for () {
    open spec fn lists(&self, params: Seq<usize>) -> bool {
        params == Seq::<usize>::empty()
    }

    fn into_managed_params(self) -> (params: Vec<usize>)
        ensures
            self.lists(params@),
    {
        Vec::new()
    }
}

/// The argument list of one argument: the address of that argument and
/// nothing else.
pub fn one_param<A: ManagedParam>(argument: A) -> (params: Vec<usize>)
    ensures
        params@.len() == 1,
        call_ensures(A::into_managed_param, (argument,), params@[0]),
{
    let mut params = Vec::new();
    params.push(argument.into_managed_param());
    params
}

/// One argument stands for the list of itself. What the list holds is said
/// by `lists` alone: a clause of this impl's own would be read of every
/// type, of `()` and of pairs too.
impl<A: ManagedParam> ManagedParams for A {
    open spec fn lists(&self, params: Seq<usize>) -> bool {
        params.len() == 1 && call_ensures(A::into_managed_param, (*self,), params[0])
    }

    fn into_managed_params(self) -> (params: Vec<usize>)
        ensures
            self.lists(params@),
    {
        one_param(self)
    }
}

impl<A: ManagedParam, B: ManagedParam> ManagedParams for (A, B) {
    open spec fn lists(&self, params: Seq<usize>) -> bool {
        params.len() == 2 && call_ensures(A::into_managed_param, (self.0,), params[0])
            && call_ensures(B::into_managed_param, (self.1,), params[1])
    }

    fn into_managed_params(self) -> (params: Vec<usize>)
        ensures
            self.lists(params@),
    {
        let mut params = Vec::new();
        params.push(self.0.into_managed_param());
        params.push(self.1.into_managed_param());
        params
    }
}

} // verus!
