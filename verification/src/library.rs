//! The fixed table of host functions that the bridge assembly exports, and
//! the calls that go through it.

use vstd::prelude::*;
use vstd::string::StringExecFns;

use crate::error::{error_of_status, outcome_of_status, Error, Result};
use crate::handle::{
    payload_from, payload_of_reply, Assembly, Class, Method, Object, ObjectFunctions, Payload,
    Scope, Wrapper,
};
use crate::marshal::{handle_of_reply, nul_terminated, nul_terminated_text, HostCall, HostReply};

verus! {

/// The number of host functions in the table.
pub const HOST_FUNCTIONS: usize = 16;

/// The members of the managed `Host` type that the bridge binds, in the order
/// in which they are resolved.
#[derive(Clone, Copy, Debug, PartialEq, Eq, Structural)]
pub enum HostFunction {
    /// Liveness check.
    Ping,
    /// Releases a class, method or object handle.
    Destroy,
    /// Frees a buffer allocated by the managed side.
    Free,
    /// Opens a load context.
    CreateScope,
    /// Unloads a load context.
    Unload,
    /// Loads an assembly from a file.
    LoadFromPath,
    /// Looks a class up by name.
    GetClass,
    /// Constructs an instance.
    New,
    /// Assignability check between two classes.
    IsAssignableFrom,
    /// Looks a method up by name and arity.
    GetMethod,
    /// Describes the fields and properties of a class.
    GetMetaData,
    /// Writes a field.
    SetFieldValue,
    /// Reads a field.
    GetFieldValue,
    /// Writes a property.
    SetPropertyValue,
    /// Reads a property.
    GetPropertyValue,
    /// Invokes a method.
    RuntimeInvoke,
}

/// The name of the exported member that a host function is resolved by.
pub open spec fn member_text(function: HostFunction) -> Seq<char> {
    match function {
        HostFunction::Ping => "Ping"@,
        HostFunction::Destroy => "Destroy"@,
        HostFunction::Free => "Free"@,
        HostFunction::CreateScope => "CreateScope"@,
        HostFunction::Unload => "Unload"@,
        HostFunction::LoadFromPath => "LoadFromPath"@,
        HostFunction::GetClass => "GetClass"@,
        HostFunction::New => "New"@,
        HostFunction::IsAssignableFrom => "IsAssignableFrom"@,
        HostFunction::GetMethod => "GetMethod"@,
        HostFunction::GetMetaData => "GetMetaData"@,
        HostFunction::SetFieldValue => "SetFieldValue"@,
        HostFunction::GetFieldValue => "GetFieldValue"@,
        HostFunction::SetPropertyValue => "SetPropertyValue"@,
        HostFunction::GetPropertyValue => "GetPropertyValue"@,
        HostFunction::RuntimeInvoke => "RuntimeInvoke"@,
    }
}

/// The assembly-qualified name of the type that exports every host function.
pub open spec fn type_text() -> Seq<char> {
    "Host, Runtime"@
}

/// The assembly-qualified name of the delegate type of a host function: the
/// nested type of `Host` named after the member.
pub open spec fn delegate_text(function: HostFunction) -> Seq<char> {
    "Host+"@ + member_text(function) + "Delegate, Runtime"@
}

/// The place of a host function in the table.
pub open spec fn index_of(function: HostFunction) -> int {
    match function {
        HostFunction::Ping => 0,
        HostFunction::Destroy => 1,
        HostFunction::Free => 2,
        HostFunction::CreateScope => 3,
        HostFunction::Unload => 4,
        HostFunction::LoadFromPath => 5,
        HostFunction::GetClass => 6,
        HostFunction::New => 7,
        HostFunction::IsAssignableFrom => 8,
        HostFunction::GetMethod => 9,
        HostFunction::GetMetaData => 10,
        HostFunction::SetFieldValue => 11,
        HostFunction::GetFieldValue => 12,
        HostFunction::SetPropertyValue => 13,
        HostFunction::GetPropertyValue => 14,
        HostFunction::RuntimeInvoke => 15,
    }
}

/// The host function at a place of the table.
pub open spec fn function_at(index: int) -> HostFunction {
    if index == 0 {
        HostFunction::Ping
    } else if index == 1 {
        HostFunction::Destroy
    } else if index == 2 {
        HostFunction::Free
    } else if index == 3 {
        HostFunction::CreateScope
    } else if index == 4 {
        HostFunction::Unload
    } else if index == 5 {
        HostFunction::LoadFromPath
    } else if index == 6 {
        HostFunction::GetClass
    } else if index == 7 {
        HostFunction::New
    } else if index == 8 {
        HostFunction::IsAssignableFrom
    } else if index == 9 {
        HostFunction::GetMethod
    } else if index == 10 {
        HostFunction::GetMetaData
    } else if index == 11 {
        HostFunction::SetFieldValue
    } else if index == 12 {
        HostFunction::GetFieldValue
    } else if index == 13 {
        HostFunction::SetPropertyValue
    } else if index == 14 {
        HostFunction::GetPropertyValue
    } else {
        HostFunction::RuntimeInvoke
    }
}

/// Every host function has one place in the table and every place one host
/// function.
pub proof fn table_is_a_bijection()
    ensures
        forall|function: HostFunction|
            0 <= #[trigger] index_of(function) < HOST_FUNCTIONS && function_at(index_of(function))
                == function,
        forall|index: int|
            0 <= index < HOST_FUNCTIONS ==> index_of(#[trigger] function_at(index)) == index,
{
}

/// The three names by which one exported member is resolved, each
/// NUL-terminated, and the address of the resolver to call with them.
#[derive(Debug, PartialEq, Eq)]
pub struct DelegateRequest {
    pub resolver: usize,
    pub type_path: String,
    pub member: String,
    pub delegate: String,
}

impl HostFunction {
    /// The place of this host function in the table.
    pub fn index(self) -> (index: usize)
        ensures
            index == index_of(self),
            index < HOST_FUNCTIONS,
    {
        match self {
            HostFunction::Ping => 0,
            HostFunction::Destroy => 1,
            HostFunction::Free => 2,
            HostFunction::CreateScope => 3,
            HostFunction::Unload => 4,
            HostFunction::LoadFromPath => 5,
            HostFunction::GetClass => 6,
            HostFunction::New => 7,
            HostFunction::IsAssignableFrom => 8,
            HostFunction::GetMethod => 9,
            HostFunction::GetMetaData => 10,
            HostFunction::SetFieldValue => 11,
            HostFunction::GetFieldValue => 12,
            HostFunction::SetPropertyValue => 13,
            HostFunction::GetPropertyValue => 14,
            HostFunction::RuntimeInvoke => 15,
        }
    }

    /// All host functions, in the order of the table.
    pub fn all() -> (table: Vec<HostFunction>)
        ensures
            table@.len() == HOST_FUNCTIONS,
            forall|index: int| 0 <= index < HOST_FUNCTIONS ==> table@[index] == function_at(index),
    {
        let mut table: Vec<HostFunction> = Vec::new();
        table.push(HostFunction::Ping);
        table.push(HostFunction::Destroy);
        table.push(HostFunction::Free);
        table.push(HostFunction::CreateScope);
        table.push(HostFunction::Unload);
        table.push(HostFunction::LoadFromPath);
        table.push(HostFunction::GetClass);
        table.push(HostFunction::New);
        table.push(HostFunction::IsAssignableFrom);
        table.push(HostFunction::GetMethod);
        table.push(HostFunction::GetMetaData);
        table.push(HostFunction::SetFieldValue);
        table.push(HostFunction::GetFieldValue);
        table.push(HostFunction::SetPropertyValue);
        table.push(HostFunction::GetPropertyValue);
        table.push(HostFunction::RuntimeInvoke);
        table
    }

    /// The name of the exported member.
    pub fn member(self) -> (name: &'static str)
        ensures
            name@ == member_text(self),
    {
        match self {
            HostFunction::Ping => "Ping",
            HostFunction::Destroy => "Destroy",
            HostFunction::Free => "Free",
            HostFunction::CreateScope => "CreateScope",
            HostFunction::Unload => "Unload",
            HostFunction::LoadFromPath => "LoadFromPath",
            HostFunction::GetClass => "GetClass",
            HostFunction::New => "New",
            HostFunction::IsAssignableFrom => "IsAssignableFrom",
            HostFunction::GetMethod => "GetMethod",
            HostFunction::GetMetaData => "GetMetaData",
            HostFunction::SetFieldValue => "SetFieldValue",
            HostFunction::GetFieldValue => "GetFieldValue",
            HostFunction::SetPropertyValue => "SetPropertyValue",
            HostFunction::GetPropertyValue => "GetPropertyValue",
            HostFunction::RuntimeInvoke => "RuntimeInvoke",
        }
    }

    /// The assembly-qualified name of the exporting type.
    pub fn exporter(self) -> (name: &'static str)
        ensures
            name@ == type_text(),
    {
        "Host, Runtime"
    }

    /// The assembly-qualified name of the member's delegate type.
    pub fn delegate(self) -> (name: String)
        ensures
            name@ == delegate_text(self),
    {
        String::from_str("Host+").concat(self.member()).concat("Delegate, Runtime")
    }
}

/// The resolved host functions: for each member of the table, the address of
/// its callable pointer.
#[derive(Clone, Copy, Debug, PartialEq, Eq, Structural)]
pub struct RuntimeLibrary {
    ping: usize,
    destroy: usize,
    free: usize,
    create_scope: usize,
    unload_scope: usize,
    load_from_path: usize,
    get_class: usize,
    new: usize,
    is_assignable_from: usize,
    get_method: usize,
    get_meta_data: usize,
    set_field_value: usize,
    get_field_value: usize,
    set_property_value: usize,
    get_property_value: usize,
    runtime_invoke: usize,
}

/// Whether every resolution of the table came back with a pointer.
pub open spec fn all_resolved(resolved: Seq<usize>) -> bool {
    &&& resolved.len() == HOST_FUNCTIONS
    &&& forall|index: int| 0 <= index < HOST_FUNCTIONS ==> resolved[index] != 0
}

impl RuntimeLibrary {
    /// The address that a host function was resolved to.
    pub closed spec fn address_of(&self, function: HostFunction) -> usize {
        match function {
            HostFunction::Ping => self.ping,
            HostFunction::Destroy => self.destroy,
            HostFunction::Free => self.free,
            HostFunction::CreateScope => self.create_scope,
            HostFunction::Unload => self.unload_scope,
            HostFunction::LoadFromPath => self.load_from_path,
            HostFunction::GetClass => self.get_class,
            HostFunction::New => self.new,
            HostFunction::IsAssignableFrom => self.is_assignable_from,
            HostFunction::GetMethod => self.get_method,
            HostFunction::GetMetaData => self.get_meta_data,
            HostFunction::SetFieldValue => self.set_field_value,
            HostFunction::GetFieldValue => self.get_field_value,
            HostFunction::SetPropertyValue => self.set_property_value,
            HostFunction::GetPropertyValue => self.get_property_value,
            HostFunction::RuntimeInvoke => self.runtime_invoke,
        }
    }

    /// The functions that every instance is bound with.
    pub open spec fn object_functions(&self) -> ObjectFunctions {
        ObjectFunctions {
            get_field_value: self.address_of(HostFunction::GetFieldValue),
            set_field_value: self.address_of(HostFunction::SetFieldValue),
            get_property_value: self.address_of(HostFunction::GetPropertyValue),
            set_property_value: self.address_of(HostFunction::SetPropertyValue),
            destroy: self.address_of(HostFunction::Destroy),
            free: self.address_of(HostFunction::Free),
        }
    }

    /// Tells whether a list of resolved pointers can make a table: one
    /// pointer for each host function and none of them null.
    pub fn complete(resolved: &Vec<usize>) -> (complete: bool)
        ensures
            complete == all_resolved(resolved@),
    {
        if resolved.len() != HOST_FUNCTIONS {
            return false;
        }
        let mut index: usize = 0;
        while index < HOST_FUNCTIONS
            invariant
                index <= HOST_FUNCTIONS,
                resolved@.len() == HOST_FUNCTIONS,
                forall|before: int| 0 <= before < index ==> resolved@[before] != 0,
            decreases HOST_FUNCTIONS - index,
        {
            if resolved[index] == 0 {
                return false;
            }
            index = index + 1;
        }
        true
    }

    /// Builds the table from the pointers that the host functions were
    /// resolved to, given in the order of the table.
    pub fn new(resolved: &Vec<usize>) -> (library: RuntimeLibrary)
        requires
            all_resolved(resolved@),
        ensures
            forall|function: HostFunction| #[trigger]
                library.address_of(function) == resolved@[index_of(function)],
            forall|function: HostFunction| #[trigger] library.address_of(function) != 0,
    {
        RuntimeLibrary {
            ping: resolved[0],
            destroy: resolved[1],
            free: resolved[2],
            create_scope: resolved[3],
            unload_scope: resolved[4],
            load_from_path: resolved[5],
            get_class: resolved[6],
            new: resolved[7],
            is_assignable_from: resolved[8],
            get_method: resolved[9],
            get_meta_data: resolved[10],
            set_field_value: resolved[11],
            get_field_value: resolved[12],
            set_property_value: resolved[13],
            get_property_value: resolved[14],
            runtime_invoke: resolved[15],
        }
    }

    /// The address that a host function was resolved to.
    pub fn function(&self, function: HostFunction) -> (address: usize)
        ensures
            address == self.address_of(function),
    {
        match function {
            HostFunction::Ping => self.ping,
            HostFunction::Destroy => self.destroy,
            HostFunction::Free => self.free,
            HostFunction::CreateScope => self.create_scope,
            HostFunction::Unload => self.unload_scope,
            HostFunction::LoadFromPath => self.load_from_path,
            HostFunction::GetClass => self.get_class,
            HostFunction::New => self.new,
            HostFunction::IsAssignableFrom => self.is_assignable_from,
            HostFunction::GetMethod => self.get_method,
            HostFunction::GetMetaData => self.get_meta_data,
            HostFunction::SetFieldValue => self.set_field_value,
            HostFunction::GetFieldValue => self.get_field_value,
            HostFunction::SetPropertyValue => self.set_property_value,
            HostFunction::GetPropertyValue => self.get_property_value,
            HostFunction::RuntimeInvoke => self.runtime_invoke,
        }
    }

    /// The liveness check.
    pub fn ping(&self) -> (call: HostCall)
        ensures
            call == (HostCall::Ping { function: self.address_of(HostFunction::Ping) }),
    {
        HostCall::Ping { function: self.ping }
    }

    /// Reads what the liveness check wrote: the managed side answers 1.
    pub fn alive(answer: u32) -> (alive: bool)
        ensures
            alive == (answer == 1),
    {
        answer == 1
    }

    /// The call that frees a buffer of the managed side.
    pub fn free(&self, buffer: usize) -> (call: HostCall)
        ensures
            call == (HostCall::Free { function: self.address_of(HostFunction::Free), buffer }),
    {
        HostCall::Free { function: self.free, buffer }
    }

    /// The call that opens a fresh load context.
    pub fn create_scope(&self) -> (call: HostCall)
        ensures
            call == (HostCall::CreateScope { function: self.address_of(HostFunction::CreateScope) }),
    {
        HostCall::CreateScope { function: self.create_scope }
    }

    /// Wraps the load context that `create_scope` wrote, binding it with the
    /// function that unloads it.
    pub fn scope_from(&self, out: usize) -> (scope: Scope)
        ensures
            scope.address() == out,
            scope.unloader() == self.address_of(HostFunction::Unload),
    {
        Scope::new(out, self.unload_scope)
    }

    /// The call that loads the assembly at `path` into `scope`.
    pub fn load_from_path(&self, scope: &Scope, path: &str) -> (call: HostCall)
        ensures
            (call matches HostCall::LoadFromPath { function, scope: context, path: passed }
                && function == self.address_of(HostFunction::LoadFromPath)
                && context == scope.address()
                && passed@ == nul_terminated_text(path@)),
    {
        HostCall::LoadFromPath {
            function: self.load_from_path,
            scope: scope.as_ptr(),
            path: nul_terminated(path),
        }
    }

    /// Reads the reply to `load_from_path`.
    pub fn assembly_from(&self, reply: HostReply) -> (outcome: Result<Option<Assembly>>)
        ensures
            (match handle_of_reply(reply) {
                Err(error) => outcome == Err::<Option<Assembly>, Error>(error),
                Ok(None) => outcome == Ok::<Option<Assembly>, Error>(None),
                Ok(Some(address)) => outcome matches Ok(Some(assembly)) && assembly.address()
                    == address,
            }),
    {
        match reply.handle() {
            Err(error) => Err(error),
            Ok(None) => Ok(None),
            Ok(Some(address)) => Ok(Some(Assembly::new(address))),
        }
    }

    /// The call that looks the class `name` up in `assembly`.
    pub fn get_class(&self, assembly: &Assembly, name: &str) -> (call: HostCall)
        ensures
            (call matches HostCall::GetClass { function, assembly: module, name: passed }
                && function == self.address_of(HostFunction::GetClass)
                && module == assembly.address()
                && passed@ == nul_terminated_text(name@)),
    {
        HostCall::GetClass {
            function: self.get_class,
            assembly: assembly.as_ptr(),
            name: nul_terminated(name),
        }
    }

    /// Reads the reply to `get_class`, binding the class with `Destroy`.
    pub fn class_from(&self, reply: HostReply) -> (outcome: Result<Option<Class>>)
        ensures
            (match handle_of_reply(reply) {
                Err(error) => outcome == Err::<Option<Class>, Error>(error),
                Ok(None) => outcome == Ok::<Option<Class>, Error>(None),
                Ok(Some(address)) => outcome matches Ok(Some(class)) && class.address() == address
                    && class.destroyer() == self.address_of(HostFunction::Destroy),
            }),
    {
        match reply.handle() {
            Err(error) => Err(error),
            Ok(None) => Ok(None),
            Ok(Some(address)) => Ok(Some(Class::new(address, self.destroy))),
        }
    }

    /// The call that constructs a new instance of `class`.
    pub fn new_object(&self, class: &Class) -> (call: HostCall)
        ensures
            call == (HostCall::New {
                function: self.address_of(HostFunction::New),
                class: class.address(),
            }),
    {
        HostCall::New { function: self.new, class: class.as_ptr() }
    }

    /// Reads the reply to `new_object`, binding the instance with the
    /// functions that read, write and release it.
    pub fn object_from(&self, reply: HostReply) -> (outcome: Result<Option<Object>>)
        ensures
            (match handle_of_reply(reply) {
                Err(error) => outcome == Err::<Option<Object>, Error>(error),
                Ok(None) => outcome == Ok::<Option<Object>, Error>(None),
                Ok(Some(address)) => outcome matches Ok(Some(object)) && object.address()
                    == address && object.functions() == self.object_functions(),
            }),
    {
        match reply.handle() {
            Err(error) => Err(error),
            Ok(None) => Ok(None),
            Ok(Some(address)) => Ok(
                Some(
                    Object::new(
                        address,
                        ObjectFunctions {
                            get_field_value: self.get_field_value,
                            set_field_value: self.set_field_value,
                            get_property_value: self.get_property_value,
                            set_property_value: self.set_property_value,
                            destroy: self.destroy,
                            free: self.free,
                        },
                    ),
                ),
            ),
        }
    }

    /// The call that asks whether a value of `target` can be assigned to
    /// `base`.
    pub fn is_assignable_from(&self, base: &Class, target: &Class) -> (call: HostCall)
        ensures
            call == (HostCall::IsAssignableFrom {
                function: self.address_of(HostFunction::IsAssignableFrom),
                base: base.address(),
                target: target.address(),
            }),
    {
        HostCall::IsAssignableFrom {
            function: self.is_assignable_from,
            base: base.as_ptr(),
            target: target.as_ptr(),
        }
    }

    /// Reads the reply to `is_assignable_from`.
    pub fn assignable(&self, reply: HostReply) -> (outcome: Result<bool>)
        ensures
            reply.status > 0 ==> outcome == Err::<bool, Error>(error_of_status(reply.status as int)),
            reply.status <= 0 ==> outcome == Ok::<bool, Error>(reply.out == 1),
    {
        reply.flag()
    }

    /// The call that looks up the method `name` of `class` that takes `args`
    /// parameters.
    pub fn get_method(&self, class: &Class, name: &str, args: i32) -> (call: HostCall)
        ensures
            (call matches HostCall::GetMethod { function, class: owner, name: passed, arity }
                && function == self.address_of(HostFunction::GetMethod)
                && owner == class.address()
                && passed@ == nul_terminated_text(name@)
                && arity == args),
    {
        HostCall::GetMethod {
            function: self.get_method,
            class: class.as_ptr(),
            name: nul_terminated(name),
            arity: args,
        }
    }

    /// Reads the reply to `get_method`, binding the method with `Destroy`.
    /// Every positive status is the error that it names, the one of a method
    /// not found too.
    pub fn method_from(&self, reply: HostReply) -> (outcome: Result<Option<Method>>)
        ensures
            (match handle_of_reply(reply) {
                Err(error) => outcome == Err::<Option<Method>, Error>(error),
                Ok(None) => outcome == Ok::<Option<Method>, Error>(None),
                Ok(Some(address)) => outcome matches Ok(Some(method)) && method.address()
                    == address && method.destroyer() == self.address_of(HostFunction::Destroy),
            }),
    {
        match reply.handle() {
            Err(error) => Err(error),
            Ok(None) => Ok(None),
            Ok(Some(address)) => Ok(Some(Method::new(address, self.destroy))),
        }
    }

    /// The call that asks for the fields and properties of `class`.
    pub fn get_meta_data(&self, class: &Class) -> (call: HostCall)
        ensures
            call == (HostCall::GetMetaData {
                function: self.address_of(HostFunction::GetMetaData),
                class: class.address(),
            }),
    {
        HostCall::GetMetaData { function: self.get_meta_data, class: class.as_ptr() }
    }

    /// Reads the reply to `get_meta_data`: the buffer that holds the encoded
    /// description, bound with `Free`.
    pub fn meta_data_from(&self, reply: HostReply) -> (outcome: Result<Option<Payload>>)
        ensures
            payload_of_reply(reply, self.address_of(HostFunction::Free), outcome),
    {
        payload_from(reply, self.free)
    }

    /// The call that writes the field `name` of `instance` from the
    /// caller-owned `value`.
    pub fn set_field_value(&self, instance: &Object, name: &str, value: usize) -> (call: HostCall)
        ensures
            (call matches HostCall::SetFieldValue { function, instance: object, name: passed, value: handed }
                && function == self.address_of(HostFunction::SetFieldValue)
                && object == instance.address()
                && passed@ == nul_terminated_text(name@)
                && handed == value),
    {
        HostCall::SetFieldValue {
            function: self.set_field_value,
            instance: instance.as_ptr(),
            name: nul_terminated(name),
            value,
        }
    }

    /// The call that invokes `method` with `args`: on `instance` where one is
    /// given, statically (a null instance) where none is.
    pub fn invoke(&self, method: &Method, instance: Option<&Object>, args: Vec<usize>) -> (call:
        HostCall)
        ensures
            call == (HostCall::RuntimeInvoke {
                function: self.address_of(HostFunction::RuntimeInvoke),
                method: method.address(),
                instance: match instance {
                    Some(object) => object.address(),
                    None => 0usize,
                },
                args,
            }),
    {
        let target = match instance {
            Some(object) => object.as_ptr(),
            None => 0,
        };
        HostCall::RuntimeInvoke {
            function: self.runtime_invoke,
            method: method.as_ptr(),
            instance: target,
            args,
        }
    }

    /// Reads the reply to a call that yields nothing but a status.
    pub fn done(&self, reply: HostReply) -> (outcome: Result<()>)
        ensures
            outcome == outcome_of_status(reply.status as int),
    {
        reply.unit()
    }
}

} // verus!
