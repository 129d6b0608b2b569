use bevy_cs_managed::hostfxr::{
    BootAction, BootEvent, BootFailure, BootState, DelegateType, Hostfxr,
};
use bevy_cs_managed::library::HostFunction;
use bevy_cs_managed::runtime::Paths;

fn paths() -> Paths {
    Paths {
        exe: "bin".to_string(),
        config: "bin/Runtime.runtimeconfig.json".to_string(),
        dll: "bin/Runtime.dll".to_string(),
        dotnet: "/usr/share/dotnet".to_string(),
        hostfxr: "/usr/share/dotnet/host/fxr/8.0.21/hostfxr.so".to_string(),
        managed: "assets".to_string(),
    }
}

fn ok(out: usize) -> BootEvent {
    BootEvent { status: 0, out }
}

#[test]
fn the_runtime_comes_up_in_five_steps() {
    let paths = paths();
    let (state, action) = Hostfxr::new(&paths);
    assert_eq!(state, BootState::LoadingShim);
    assert_eq!(
        action,
        BootAction::LoadShim { path: "/usr/share/dotnet/host/fxr/8.0.21/hostfxr.so".to_string() }
    );

    let (state, action) = Hostfxr::step(state, ok(0), &paths);
    assert_eq!(state, BootState::Initializing);
    assert_eq!(
        action,
        BootAction::Initialize { config: "bin/Runtime.runtimeconfig.json\0".to_string() }
    );

    let (state, action) = Hostfxr::step(state, ok(11), &paths);
    assert_eq!(state, BootState::BindingLoader { ctx: 11 });
    assert_eq!(action, BootAction::GetDelegate { ctx: 11, delegate: DelegateType::LoadAssembly });

    let (state, action) = Hostfxr::step(state, ok(22), &paths);
    assert_eq!(state, BootState::BindingResolver { ctx: 11, load_assembly: 22 });
    assert_eq!(
        action,
        BootAction::GetDelegate { ctx: 11, delegate: DelegateType::GetFunctionPointer }
    );

    let (state, action) = Hostfxr::step(state, ok(33), &paths);
    assert_eq!(
        state,
        BootState::LoadingBridge { ctx: 11, load_assembly: 22, get_function_pointer: 33 }
    );
    assert_eq!(
        action,
        BootAction::LoadAssembly { function: 22, path: "bin/Runtime.dll\0".to_string() }
    );

    let (state, action) = Hostfxr::step(state, ok(0), &paths);
    let host = Hostfxr { ctx: 11, get_function_pointer: 33 };
    assert_eq!(state, BootState::Ready { host });
    assert_eq!(action, BootAction::Finish { host });

    let (state, action) = Hostfxr::step(state, BootEvent { status: 5, out: 5 }, &paths);
    assert_eq!(state, BootState::Ready { host });
    assert_eq!(action, BootAction::Finish { host });
}

#[test]
fn a_missing_shim_is_fatal() {
    let paths = paths();
    let (state, _) = Hostfxr::new(&paths);
    let (state, action) = Hostfxr::step(state, BootEvent { status: 1, out: 0 }, &paths);
    assert_eq!(state, BootState::Failed { failure: BootFailure::Shim });
    assert_eq!(action, BootAction::Abort { failure: BootFailure::Shim });
    let (state, action) = Hostfxr::step(state, ok(1), &paths);
    assert_eq!(state, BootState::Failed { failure: BootFailure::Shim });
    assert_eq!(action, BootAction::Abort { failure: BootFailure::Shim });
}

#[test]
fn a_context_that_does_not_initialize_is_fatal() {
    let paths = paths();
    let (state, action) =
        Hostfxr::step(BootState::Initializing, BootEvent { status: -2147450730, out: 0 }, &paths);
    assert_eq!(state, BootState::Failed { failure: BootFailure::Context });
    assert_eq!(action, BootAction::Abort { failure: BootFailure::Context });
    let (state, _) = Hostfxr::step(BootState::Initializing, BootEvent { status: -1, out: 5 }, &paths);
    assert_eq!(state, BootState::Failed { failure: BootFailure::Context });
    let (state, _) = Hostfxr::step(BootState::Initializing, ok(0), &paths);
    assert_eq!(state, BootState::Failed { failure: BootFailure::Context });
    let (state, _) = Hostfxr::step(BootState::Initializing, BootEvent { status: 1, out: 5 }, &paths);
    assert_eq!(state, BootState::BindingLoader { ctx: 5 });
}

#[test]
fn an_entry_point_needs_a_zero_status_and_a_pointer() {
    let paths = paths();
    let loader = BootState::BindingLoader { ctx: 11 };
    let (state, _) = Hostfxr::step(loader, ok(0), &paths);
    assert_eq!(state, BootState::Failed { failure: BootFailure::LoadAssembly });
    let (state, _) = Hostfxr::step(loader, BootEvent { status: 1, out: 22 }, &paths);
    assert_eq!(state, BootState::Failed { failure: BootFailure::LoadAssembly });
    let (state, _) = Hostfxr::step(loader, BootEvent { status: -1, out: 22 }, &paths);
    assert_eq!(state, BootState::Failed { failure: BootFailure::LoadAssembly });

    let resolver = BootState::BindingResolver { ctx: 11, load_assembly: 22 };
    let (state, action) = Hostfxr::step(resolver, ok(0), &paths);
    assert_eq!(state, BootState::Failed { failure: BootFailure::GetFunctionPointer });
    assert_eq!(action, BootAction::Abort { failure: BootFailure::GetFunctionPointer });
    let (state, _) = Hostfxr::step(resolver, BootEvent { status: 3, out: 33 }, &paths);
    assert_eq!(state, BootState::Failed { failure: BootFailure::GetFunctionPointer });
}

#[test]
fn a_bridge_that_does_not_load_is_fatal() {
    let paths = paths();
    let loading = BootState::LoadingBridge { ctx: 11, load_assembly: 22, get_function_pointer: 33 };
    let (state, action) = Hostfxr::step(loading, BootEvent { status: -1, out: 0 }, &paths);
    assert_eq!(state, BootState::Failed { failure: BootFailure::Bridge });
    assert_eq!(action, BootAction::Abort { failure: BootFailure::Bridge });
}

#[test]
fn failures_have_last_words() {
    assert_eq!(BootFailure::Shim.message(), "failed to load hostfxr and defined path");
    assert_eq!(
        BootFailure::Context.message(),
        "failed to initialize the runtime from its config"
    );
    assert_eq!(BootFailure::LoadAssembly.message(), "failed to load 'load_assembly' from hostfxr");
    assert_eq!(
        BootFailure::GetFunctionPointer.message(),
        "failed to load 'get_function_pointer' from hostfxr"
    );
    assert_eq!(BootFailure::Bridge.message(), "failed to load dll");
}

#[test]
fn members_are_resolved_by_terminated_triples() {
    let host = Hostfxr { ctx: 11, get_function_pointer: 33 };
    let request = host.get_function_with_delegate("Host, Runtime", "Ping", "Host+PingDelegate, Runtime");
    assert_eq!(request.resolver, 33);
    assert_eq!(request.type_path, "Host, Runtime\0");
    assert_eq!(request.member, "Ping\0");
    assert_eq!(request.delegate, "Host+PingDelegate, Runtime\0");
    assert_eq!(host.binding(HostFunction::Ping), request);
}

#[test]
fn the_whole_table_is_asked_for_in_order() {
    let host = Hostfxr { ctx: 11, get_function_pointer: 33 };
    let requests = host.bindings();
    let table = HostFunction::all();
    assert_eq!(requests.len(), 16);
    for (request, function) in requests.iter().zip(table.iter()) {
        assert_eq!(request.resolver, 33);
        assert_eq!(request.type_path, "Host, Runtime\0");
        assert_eq!(request.member, format!("{}\0", function.member()));
        assert_eq!(request.delegate, format!("Host+{}Delegate, Runtime\0", function.member()));
    }
    assert_eq!(requests[9].member, "GetMethod\0");
    assert_eq!(requests[15].delegate, "Host+RuntimeInvokeDelegate, Runtime\0");
}

#[test]
fn a_resolution_counts_with_a_zero_status_and_a_pointer() {
    assert_eq!(Hostfxr::resolved(0, 500), Some(500));
    assert_eq!(Hostfxr::resolved(0, 0), None);
    assert_eq!(Hostfxr::resolved(1, 500), None);
    assert_eq!(Hostfxr::resolved(-1, 500), None);
}
