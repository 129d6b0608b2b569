//! The host loader: the steps that bring the managed runtime up, and the
//! resolution of exported members by name.
//!
//! Bringing the runtime up takes a fixed sequence of calls into the hosting
//! shim, each of which needs what the one before gave. The sequence is kept
//! here as a state machine: the embedding program performs the step that it
//! is handed and reports what came of it.

use vstd::prelude::*;

use crate::library::{
    delegate_text, function_at, member_text, type_text, DelegateRequest, HostFunction,
    HOST_FUNCTIONS,
};
use crate::marshal::{nul_terminated, nul_terminated_text};
use crate::runtime::Paths;

verus! {

/// The initialized hosting context and the resolver of exported members.
#[derive(Clone, Copy, Debug, PartialEq, Eq, Structural)]
pub struct Hostfxr {
    pub ctx: usize,
    pub get_function_pointer: usize,
}

/// The two entry points that are asked of the hosting context.
#[derive(Clone, Copy, Debug, PartialEq, Eq, Structural)]
pub enum DelegateType {
    /// Loads an assembly from a file.
    LoadAssembly,
    /// Resolves an exported member to a callable pointer.
    GetFunctionPointer,
}

/// Why the runtime could not be brought up. None of these can be recovered
/// from: without its bindings the bridge can do nothing.
#[derive(Clone, Copy, Debug, PartialEq, Eq, Structural)]
pub enum BootFailure {
    /// The hosting shim could not be loaded.
    Shim,
    /// The execution context could not be initialized from the runtime
    /// configuration.
    Context,
    /// The context did not give the entry point that loads assemblies.
    LoadAssembly,
    /// The context did not give the entry point that resolves members.
    GetFunctionPointer,
    /// The bridge assembly could not be loaded.
    Bridge,
}

/// How far the bootstrap has come.
#[derive(Clone, Copy, Debug, PartialEq, Eq, Structural)]
pub enum BootState {
    /// The shim is being loaded.
    LoadingShim,
    /// The execution context is being initialized.
    Initializing,
    /// The entry point that loads assemblies is being asked for.
    BindingLoader { ctx: usize },
    /// The entry point that resolves members is being asked for.
    BindingResolver { ctx: usize, load_assembly: usize },
    /// The bridge assembly is being loaded.
    LoadingBridge { ctx: usize, load_assembly: usize, get_function_pointer: usize },
    /// The runtime is up.
    Ready { host: Hostfxr },
    /// The bootstrap failed.
    Failed { failure: BootFailure },
}

/// What the embedding program is to do next.
#[derive(Debug, PartialEq, Eq)]
pub enum BootAction {
    /// Load the hosting shim from this file.
    LoadShim { path: String },
    /// Initialize the execution context from this runtime configuration.
    Initialize { config: String },
    /// Ask the context for an entry point.
    GetDelegate { ctx: usize, delegate: DelegateType },
    /// Load the bridge assembly from this file through the entry point.
    LoadAssembly { function: usize, path: String },
    /// Nothing more: the runtime is up.
    Finish { host: Hostfxr },
    /// Nothing more: the process cannot proceed.
    Abort { failure: BootFailure },
}

/// What came of a step: the status that the call returned and the pointer
/// that it wrote, zero where it wrote none.
#[derive(Clone, Copy, Debug, PartialEq, Eq, Structural)]
pub struct BootEvent {
    pub status: i32,
    pub out: usize,
}

/// A resolution succeeds with a zero status and a pointer that is not null.
pub open spec fn bound(event: BootEvent) -> bool {
    event.status == 0 && event.out != 0
}

/// The state that follows a state on an event. The shim is loaded with a
/// zero status; the context is initialized unless the status is negative or
/// no context was written; each entry point has to be bound; the bridge is
/// loaded with a zero status. A state in which nothing is pending stays.
pub open spec fn next_state(state: BootState, event: BootEvent) -> BootState {
    match state {
        BootState::LoadingShim => if event.status == 0 {
            BootState::Initializing
        } else {
            BootState::Failed { failure: BootFailure::Shim }
        },
        BootState::Initializing => if event.status >= 0 && event.out != 0 {
            BootState::BindingLoader { ctx: event.out }
        } else {
            BootState::Failed { failure: BootFailure::Context }
        },
        BootState::BindingLoader { ctx } => if bound(event) {
            BootState::BindingResolver { ctx, load_assembly: event.out }
        } else {
            BootState::Failed { failure: BootFailure::LoadAssembly }
        },
        BootState::BindingResolver { ctx, load_assembly } => if bound(event) {
            BootState::LoadingBridge { ctx, load_assembly, get_function_pointer: event.out }
        } else {
            BootState::Failed { failure: BootFailure::GetFunctionPointer }
        },
        BootState::LoadingBridge { ctx, load_assembly, get_function_pointer } => if event.status == 0 {
            BootState::Ready { host: Hostfxr { ctx, get_function_pointer } }
        } else {
            BootState::Failed { failure: BootFailure::Bridge }
        },
        BootState::Ready { host } => state,
        BootState::Failed { failure } => state,
    }
}

/// Whether an action is the one that a state asks for: each pending state
/// asks for its call, with the texts that cross the boundary
/// NUL-terminated, and the bridge is loaded through the entry point that was
/// bound for it.
pub open spec fn asked(state: BootState, paths: Paths, action: BootAction) -> bool {
    match state {
        BootState::LoadingShim => action matches BootAction::LoadShim { path } && path@
            == paths.hostfxr@,
        BootState::Initializing => action matches BootAction::Initialize { config } && config@
            == nul_terminated_text(paths.config@),
        BootState::BindingLoader { ctx } => action == (BootAction::GetDelegate {
            ctx,
            delegate: DelegateType::LoadAssembly,
        }),
        BootState::BindingResolver { ctx, load_assembly } => action == (BootAction::GetDelegate {
            ctx,
            delegate: DelegateType::GetFunctionPointer,
        }),
        BootState::LoadingBridge { ctx, load_assembly, get_function_pointer } => action matches BootAction::LoadAssembly {
            function,
            path,
        } && function == load_assembly && path@ == nul_terminated_text(paths.dll@),
        BootState::Ready { host } => action == (BootAction::Finish { host }),
        BootState::Failed { failure } => action == (BootAction::Abort { failure }),
    }
}

impl BootFailure {
    /// The last words of the process.
    pub fn message(&self) -> (text: &'static str)
        ensures
            text@ == (match *self {
                BootFailure::Shim => "failed to load hostfxr and defined path"@,
                BootFailure::Context => "failed to initialize the runtime from its config"@,
                BootFailure::LoadAssembly => "failed to load 'load_assembly' from hostfxr"@,
                BootFailure::GetFunctionPointer => "failed to load 'get_function_pointer' from hostfxr"@,
                BootFailure::Bridge => "failed to load dll"@,
            }),
    {
        match self {
            BootFailure::Shim => "failed to load hostfxr and defined path",
            BootFailure::Context => "failed to initialize the runtime from its config",
            BootFailure::LoadAssembly => "failed to load 'load_assembly' from hostfxr",
            BootFailure::GetFunctionPointer => "failed to load 'get_function_pointer' from hostfxr",
            BootFailure::Bridge => "failed to load dll",
        }
    }
}

impl Hostfxr {
    /// Begins the bootstrap: the state in which the shim is being loaded, and
    /// the step that loads it.
    pub fn new(paths: &Paths) -> (begun: (BootState, BootAction))
        ensures
            begun.0 == BootState::LoadingShim,
            asked(begun.0, *paths, begun.1),
    {
        (BootState::LoadingShim, BootAction::LoadShim { path: paths.hostfxr.clone() })
    }

    /// Takes the bootstrap one step on: the state that follows on what came
    /// of the pending step, and what is to be done in it.
    pub fn step(state: BootState, event: BootEvent, paths: &Paths) -> (stepped: (
        BootState,
        BootAction,
    ))
        ensures
            stepped.0 == next_state(state, event),
            asked(stepped.0, *paths, stepped.1),
    {
        let next = match state {
            BootState::LoadingShim => if event.status == 0 {
                BootState::Initializing
            } else {
                BootState::Failed { failure: BootFailure::Shim }
            },
            BootState::Initializing => if event.status >= 0 && event.out != 0 {
                BootState::BindingLoader { ctx: event.out }
            } else {
                BootState::Failed { failure: BootFailure::Context }
            },
            BootState::BindingLoader { ctx } => if event.status == 0 && event.out != 0 {
                BootState::BindingResolver { ctx, load_assembly: event.out }
            } else {
                BootState::Failed { failure: BootFailure::LoadAssembly }
            },
            BootState::BindingResolver { ctx, load_assembly } => if event.status == 0 && event.out
                != 0 {
                BootState::LoadingBridge { ctx, load_assembly, get_function_pointer: event.out }
            } else {
                BootState::Failed { failure: BootFailure::GetFunctionPointer }
            },
            BootState::LoadingBridge { ctx, load_assembly, get_function_pointer } => if event.status == 0 {
                BootState::Ready { host: Hostfxr { ctx, get_function_pointer } }
            } else {
                BootState::Failed { failure: BootFailure::Bridge }
            },
            BootState::Ready { host } => state,
            BootState::Failed { failure } => state,
        };
        let action = match next {
            BootState::LoadingShim => BootAction::LoadShim { path: paths.hostfxr.clone() },
            BootState::Initializing => BootAction::Initialize {
                config: nul_terminated(paths.config.as_str()),
            },
            BootState::BindingLoader { ctx } => BootAction::GetDelegate {
                ctx,
                delegate: DelegateType::LoadAssembly,
            },
            BootState::BindingResolver { ctx, load_assembly } => BootAction::GetDelegate {
                ctx,
                delegate: DelegateType::GetFunctionPointer,
            },
            BootState::LoadingBridge { ctx, load_assembly, get_function_pointer } => BootAction::LoadAssembly {
                function: load_assembly,
                path: nul_terminated(paths.dll.as_str()),
            },
            BootState::Ready { host } => BootAction::Finish { host },
            BootState::Failed { failure } => BootAction::Abort { failure },
        };
        (next, action)
    }

    /// The request that resolves one exported member: the type that exports
    /// it, its name and the type of its delegate, each NUL-terminated.
    pub fn get_function_with_delegate(&self, exporter: &str, method: &str, delegate: &str) -> (request:
        DelegateRequest)
        ensures
            request.resolver == self.get_function_pointer,
            request.type_path@ == nul_terminated_text(exporter@),
            request.member@ == nul_terminated_text(method@),
            request.delegate@ == nul_terminated_text(delegate@),
    {
        DelegateRequest {
            resolver: self.get_function_pointer,
            type_path: nul_terminated(exporter),
            member: nul_terminated(method),
            delegate: nul_terminated(delegate),
        }
    }

    /// The request that resolves a host function of the table.
    pub fn binding(&self, function: HostFunction) -> (request: DelegateRequest)
        ensures
            request.resolver == self.get_function_pointer,
            request.type_path@ == nul_terminated_text(type_text()),
            request.member@ == nul_terminated_text(member_text(function)),
            request.delegate@ == nul_terminated_text(delegate_text(function)),
    {
        let delegate = function.delegate();
        self.get_function_with_delegate(function.exporter(), function.member(), delegate.as_str())
    }

    /// The requests that resolve the whole table, in its order.
    pub fn bindings(&self) -> (requests: Vec<DelegateRequest>)
        ensures
            requests@.len() == HOST_FUNCTIONS,
            (forall|index: int|
                0 <= index < HOST_FUNCTIONS ==> {
                    let request = #[trigger] requests@[index];
                    &&& request.resolver == self.get_function_pointer
                    &&& request.type_path@ == nul_terminated_text(type_text())
                    &&& request.member@ == nul_terminated_text(member_text(function_at(index)))
                    &&& request.delegate@ == nul_terminated_text(
                        delegate_text(function_at(index)),
                    )
                }),
    {
        let table = HostFunction::all();
        let mut requests: Vec<DelegateRequest> = Vec::new();
        let mut at: usize = 0;
        while at < HOST_FUNCTIONS
            invariant
                at <= HOST_FUNCTIONS,
                requests@.len() == at,
                table@.len() == HOST_FUNCTIONS,
                forall|index: int| 0 <= index < HOST_FUNCTIONS ==> table@[index] == function_at(index),
                forall|index: int|
                    0 <= index < at ==> {
                        let request = #[trigger] requests@[index];
                        &&& request.resolver == self.get_function_pointer
                        &&& request.type_path@ == nul_terminated_text(type_text())
                        &&& request.member@ == nul_terminated_text(
                            member_text(function_at(index)),
                        )
                        &&& request.delegate@ == nul_terminated_text(
                            delegate_text(function_at(index)),
                        )
                    },
            decreases HOST_FUNCTIONS - at,
        {
            requests.push(self.binding(table[at]));
            at = at + 1;
        }
        requests
    }

    /// Reads what came of a resolution: the pointer, where the status is
    /// zero and the pointer is not null, and nothing where the member could
    /// not be bound.
    pub fn resolved(status: i32, pointer: usize) -> (delegate: Option<usize>)
        ensures
            delegate == (if status == 0 && pointer != 0 {
                Some(pointer)
            } else {
                None
            }),
    {
        if status == 0 && pointer != 0 {
            Some(pointer)
        } else {
            None
        }
    }
}

/// Prepares a text for the hosting shim: NUL-terminated.
pub fn to_char_t(value: &str) -> (text: String)
    ensures
        text@ == nul_terminated_text(value@),
{
    nul_terminated(value)
}

} // verus!
