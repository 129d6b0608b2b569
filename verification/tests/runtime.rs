use std::collections::HashMap;
use std::rc::Rc;

use bevy_cs_managed::error::Error;
use bevy_cs_managed::handle::{decoded, one_param, ManagedParam, ManagedParams, Wrapper};
use bevy_cs_managed::library::RuntimeLibrary;
use bevy_cs_managed::marshal::{HostCall, HostReply};
use bevy_cs_managed::metadata::{Field, MetaData, Property};
use bevy_cs_managed::runtime::{
    release_shared, release_unwrapped, AssemblyType, Invokable, MethodLookup, Paths, Versions,
};
use bevy_cs_managed::{Runtime, Script};

const METADATA: &str = "{\"Fields\":[{\"Name\":\"Position\",\"IsStatic\":false,\"CustomAttributes\":[\"Export\"]}],\"Properties\":[{\"Name\":\"Health\",\"IsStatic\":false,\"CustomAttributes\":[],\"CanRead\":true,\"CanWrite\":false}]}";

/// A stand-in for the managed side: it knows one scripts module with the
/// classes `Player` and `Enemy`, and answers calls as the bridge assembly would.
struct Managed {
    next: usize,
    calls: Vec<HostCall>,
    classes: HashMap<usize, String>,
    buffers: HashMap<usize, String>,
    fields: HashMap<(usize, String), String>,
    values: HashMap<usize, String>,
    released: Vec<usize>,
    freed: Vec<usize>,
    unloaded: Vec<usize>,
    invoked: Vec<(usize, usize, Vec<usize>)>,
    unload_status: i32,
}

fn trimmed(name: &str) -> &str {
    name.strip_suffix('\0').expect("a text crossed the boundary without its terminator")
}

impl Managed {
    fn new() -> Managed {
        Managed {
            next: 1000,
            calls: Vec::new(),
            classes: HashMap::new(),
            buffers: HashMap::new(),
            fields: HashMap::new(),
            values: HashMap::new(),
            released: Vec::new(),
            freed: Vec::new(),
            unloaded: Vec::new(),
            invoked: Vec::new(),
            unload_status: 0,
        }
    }

    fn fresh(&mut self) -> usize {
        self.next += 1;
        self.next
    }

    fn buffer(&mut self, text: &str) -> HostReply {
        let buffer = self.fresh();
        self.buffers.insert(buffer, text.to_string());
        HostReply { status: 0, out: buffer }
    }

    fn answer(&mut self, call: HostCall) -> HostReply {
        self.calls.push(call.clone());
        match call {
            HostCall::Ping { .. } => HostReply { status: 0, out: 1 },
            HostCall::Destroy { handle, .. } => {
                self.released.push(handle);
                HostReply { status: 0, out: 0 }
            }
            HostCall::Free { buffer, .. } => {
                self.freed.push(buffer);
                HostReply { status: 0, out: 0 }
            }
            HostCall::CreateScope { .. } => HostReply { status: 0, out: self.fresh() },
            HostCall::Unload { scope, .. } => {
                self.unloaded.push(scope);
                HostReply { status: self.unload_status, out: 0 }
            }
            HostCall::LoadFromPath { path, .. } => {
                if trimmed(&path).ends_with("Scripts.dll") || trimmed(&path).ends_with("Engine.dll") {
                    HostReply { status: 0, out: self.fresh() }
                } else {
                    HostReply { status: 0, out: 0 }
                }
            }
            HostCall::GetClass { name, .. } => match trimmed(&name) {
                "Player" | "Enemy" => {
                    let class = self.fresh();
                    self.classes.insert(class, trimmed(&name).to_string());
                    HostReply { status: 0, out: class }
                }
                "Broken" => HostReply { status: 12, out: 0 },
                _ => HostReply { status: 0, out: 0 },
            },
            HostCall::New { class, .. } => {
                if self.classes.contains_key(&class) {
                    HostReply { status: 0, out: self.fresh() }
                } else {
                    HostReply { status: 0, out: 0 }
                }
            }
            HostCall::IsAssignableFrom { base, target, .. } => {
                HostReply { status: 0, out: usize::from(base == target) }
            }
            HostCall::GetMethod { class, name, arity, .. } => {
                let known = self.classes.get(&class).map(String::as_str) == Some("Player");
                match (known, trimmed(&name), arity) {
                    (true, "Awake", 0) | (true, "Update", 1) | (true, "Update", 2) => {
                        HostReply { status: 0, out: self.fresh() }
                    }
                    (_, "Gone", _) => HostReply { status: 2, out: 0 },
                    (_, "Throws", _) => HostReply { status: 8, out: 0 },
                    _ => HostReply { status: 0, out: 0 },
                }
            }
            HostCall::GetMetaData { class, .. } => {
                if self.classes.get(&class).map(String::as_str) == Some("Player") {
                    self.buffer(METADATA)
                } else {
                    HostReply { status: 0, out: 0 }
                }
            }
            HostCall::SetFieldValue { instance, name, value, .. } => match trimmed(&name) {
                "Position" => {
                    let text = self.values[&value].clone();
                    self.fields.insert((instance, "Position".to_string()), text);
                    HostReply { status: 0, out: 0 }
                }
                "Origin" => HostReply { status: 5, out: 0 },
                _ => HostReply { status: 3, out: 0 },
            },
            HostCall::GetFieldValue { instance, name, .. } => match trimmed(&name) {
                "Position" => match self.fields.get(&(instance, "Position".to_string())).cloned() {
                    Some(text) => self.buffer(&text),
                    None => HostReply { status: 0, out: 0 },
                },
                "Garbled" => self.buffer("{\"x\":"),
                _ => HostReply { status: 3, out: 0 },
            },
            HostCall::SetPropertyValue { instance, name, value, .. } => match trimmed(&name) {
                "Position" => {
                    let text = self.values[&value].clone();
                    self.fields.insert((instance, "Position".to_string()), text);
                    HostReply { status: 0, out: 0 }
                }
                "Health" => HostReply { status: 7, out: 0 },
                _ => HostReply { status: 4, out: 0 },
            },
            HostCall::GetPropertyValue { instance, name, .. } => match trimmed(&name) {
                "Position" => match self.fields.get(&(instance, "Position".to_string())).cloned() {
                    Some(text) => self.buffer(&text),
                    None => HostReply { status: 0, out: 0 },
                },
                "Secret" => HostReply { status: 6, out: 0 },
                _ => HostReply { status: 4, out: 0 },
            },
            HostCall::RuntimeInvoke { method, instance, args, .. } => {
                self.invoked.push((method, instance, args));
                HostReply { status: 0, out: 0 }
            }
        }
    }

    fn asked(&self, wanted: fn(&HostCall) -> bool) -> usize {
        self.calls.iter().filter(|call| wanted(call)).count()
    }
}

fn library() -> RuntimeLibrary {
    let resolved: Vec<usize> = (101..=116).collect();
    RuntimeLibrary::new(&resolved)
}

fn runtime() -> Runtime {
    let paths = Paths::locate("bin", Some("/usr/share/dotnet"), "8.0.21", "hostfxr.so").unwrap();
    let versions = Versions { framework: "8.0.21".to_string(), net: "net8.0".to_string() };
    Runtime::new(paths, versions, library())
}

fn text_of(value: &serde_json::Value, key: &str) -> Result<String, String> {
    value.get(key).and_then(|v| v.as_str()).map(str::to_string).ok_or(format!("missing field `{key}`"))
}

fn flag_of(value: &serde_json::Value, key: &str) -> Result<bool, String> {
    value.get(key).and_then(|v| v.as_bool()).ok_or(format!("missing field `{key}`"))
}

fn list_of(value: &serde_json::Value, key: &str) -> Result<Vec<serde_json::Value>, String> {
    value.get(key).and_then(|v| v.as_array()).cloned().ok_or(format!("missing field `{key}`"))
}

fn decode_metadata(text: &str) -> Result<MetaData, String> {
    let value: serde_json::Value = serde_json::from_str(text).map_err(|error| error.to_string())?;
    let mut fields = Vec::new();
    for field in list_of(&value, "Fields")? {
        fields.push(Field {
            name: text_of(&field, "Name")?,
            is_static: flag_of(&field, "IsStatic")?,
            custom_attributes: list_of(&field, "CustomAttributes")?,
        });
    }
    let mut properties = Vec::new();
    for property in list_of(&value, "Properties")? {
        properties.push(Property {
            name: text_of(&property, "Name")?,
            is_static: flag_of(&property, "IsStatic")?,
            custom_attributes: list_of(&property, "CustomAttributes")?,
            can_read: flag_of(&property, "CanRead")?,
            can_write: flag_of(&property, "CanWrite")?,
        });
    }
    Ok(MetaData { fields, properties })
}

fn open(runtime: &mut Runtime, managed: &mut Managed) {
    let reply = managed.answer(runtime.library.create_scope());
    runtime.scope = Some(runtime.library.scope_from(reply.out));
}

fn load(runtime: &mut Runtime, managed: &mut Managed, assembly: AssemblyType) -> Result<(), Error> {
    match runtime.load(assembly) {
        None => Ok(()),
        Some(call) => {
            let reply = managed.answer(call);
            runtime.loaded(assembly, reply)
        }
    }
}

fn register(runtime: &mut Runtime, managed: &mut Managed, name: &str) -> Result<(), Error> {
    let Some(call) = runtime.register(name)? else {
        return Ok(());
    };
    let reply = managed.answer(call);
    let (class, call) = runtime.describe(reply)?;
    let reply = managed.answer(call);
    let verdict = match runtime.library.meta_data_from(reply) {
        Err(error) => {
            managed.answer(class.release());
            return Err(error);
        }
        Ok(None) => None,
        Ok(Some(payload)) => {
            let verdict = decode_metadata(&managed.buffers[&payload.as_ptr()]);
            managed.answer(payload.release());
            Some(verdict)
        }
    };
    match MetaData::from_decoded(verdict) {
        Err(error) => {
            managed.answer(class.release());
            Err(error)
        }
        Ok(metadata) => {
            if let Some(spare) = runtime.enroll(name, class, metadata) {
                managed.answer(spare.release());
            }
            Ok(())
        }
    }
}

fn create(runtime: &Runtime, managed: &mut Managed, name: &str) -> Result<Script, Error> {
    let pending = runtime.create(name)?;
    let reply = managed.answer(pending.call);
    runtime.created(pending.index, reply)
}

fn get_method<'s>(
    runtime: &mut Runtime,
    managed: &mut Managed,
    script: &'s Script,
    name: &str,
    arity: i32,
) -> Result<Option<Invokable<'s>>, Error> {
    match runtime.get_method(script, name, arity) {
        MethodLookup::Cached(invokable) => Ok(Some(invokable)),
        MethodLookup::Unregistered => Ok(None),
        MethodLookup::Query(call) => {
            let reply = managed.answer(call);
            let resolved = runtime.cache_method(script, name, arity, reply)?;
            if let Some(spare) = resolved.spare {
                managed.answer(spare.release());
            }
            Ok(resolved.invokable)
        }
    }
}

fn clear(runtime: &mut Runtime, managed: &mut Managed) -> Result<(), Error> {
    let reply = managed.answer(runtime.library.create_scope());
    let fresh = runtime.library.scope_from(reply.out);
    let purged = runtime.clear(fresh);
    for registered in purged.types {
        let (class, methods) = registered.release();
        for cached in methods {
            if let Some(call) = release_shared(cached.method) {
                managed.answer(call);
            }
        }
        managed.answer(class.release());
    }
    match purged.scope {
        None => Ok(()),
        Some(scope) => {
            let reply = managed.answer(scope.unload());
            runtime.cleared(reply)
        }
    }
}

fn ready() -> (Runtime, Managed) {
    let mut runtime = runtime();
    let mut managed = Managed::new();
    open(&mut runtime, &mut managed);
    load(&mut runtime, &mut managed, AssemblyType::Engine).unwrap();
    load(&mut runtime, &mut managed, AssemblyType::Scripts).unwrap();
    (runtime, managed)
}

fn is_get_method(call: &HostCall) -> bool {
    matches!(call, HostCall::GetMethod { .. })
}

fn is_get_class(call: &HostCall) -> bool {
    matches!(call, HostCall::GetClass { .. })
}

fn is_new(call: &HostCall) -> bool {
    matches!(call, HostCall::New { .. })
}

#[test]
fn paths_are_laid_out_around_the_executable_and_the_install_root() {
    let paths = Paths::locate("bin", Some("/usr/share/dotnet"), "8.0.21", "hostfxr.so").unwrap();
    let sep = std::path::MAIN_SEPARATOR;
    assert_eq!(paths.exe, "bin");
    assert_eq!(paths.dotnet, "/usr/share/dotnet");
    assert_eq!(paths.config, format!("bin{sep}Runtime.runtimeconfig.json"));
    assert_eq!(paths.dll, format!("bin{sep}Runtime.dll"));
    assert_eq!(
        paths.hostfxr,
        format!("/usr/share/dotnet{sep}host{sep}fxr{sep}8.0.21{sep}hostfxr.so")
    );
    assert_eq!(paths.managed, "assets");
}

#[test]
fn without_an_install_root_there_is_no_path() {
    assert!(matches!(
        Paths::locate("bin", None, "8.0.21", "hostfxr.so"),
        Err(Error::PathNotFound)
    ));
}

#[test]
fn modules_lie_in_the_managed_directory() {
    let sep = std::path::MAIN_SEPARATOR;
    assert_eq!(AssemblyType::Engine.path("bin"), format!("bin{sep}managed{sep}Engine.dll"));
    assert_eq!(AssemblyType::Scripts.path("bin"), format!("bin{sep}managed{sep}Scripts.dll"));
    assert_eq!(AssemblyType::Scripts.path(""), format!("managed{sep}Scripts.dll"));
    assert_eq!(AssemblyType::Engine.name(), "Engine");
    assert_eq!(AssemblyType::Scripts.name(), "Scripts");
}

#[test]
fn a_new_runtime_has_nothing() {
    let runtime = runtime();
    assert!(runtime.scope.is_none());
    assert!(runtime.assemblies.get(AssemblyType::Engine).is_none());
    assert!(runtime.assemblies.get(AssemblyType::Scripts).is_none());
    assert_eq!(runtime.scripts.len(), 0);
    assert_eq!(runtime.scripts.lookup("Player"), None);
    assert_eq!(runtime.get_framework_version(), "8.0.21");
    assert_eq!(runtime.get_net_version(), "net8.0");
    assert_eq!(runtime.get_dotnet_path(), "/usr/share/dotnet");
    assert_eq!(runtime.get_managed_path(), "assets");
    assert_eq!(runtime.get_config_path(), runtime.paths.config);
    assert_eq!(runtime.get_dll_path(), runtime.paths.dll);
    assert_eq!(runtime.get_hostfxr_path(), runtime.paths.hostfxr);
}

#[test]
fn loading_without_a_scope_does_nothing() {
    let mut runtime = runtime();
    let mut managed = Managed::new();
    assert!(runtime.load(AssemblyType::Scripts).is_none());
    assert!(load(&mut runtime, &mut managed, AssemblyType::Scripts).is_ok());
    assert!(managed.calls.is_empty());
    assert!(runtime.assemblies.get(AssemblyType::Scripts).is_none());
}

#[test]
fn a_module_is_loaded_from_its_file_into_the_scope() {
    let mut runtime = runtime();
    let mut managed = Managed::new();
    open(&mut runtime, &mut managed);
    let scope = runtime.scope.as_ref().unwrap().as_ptr();
    let sep = std::path::MAIN_SEPARATOR;
    assert_eq!(
        runtime.load(AssemblyType::Scripts),
        Some(HostCall::LoadFromPath {
            function: 106,
            scope,
            path: format!("bin{sep}managed{sep}Scripts.dll\0"),
        })
    );
    load(&mut runtime, &mut managed, AssemblyType::Scripts).unwrap();
    assert!(runtime.assemblies.get(AssemblyType::Scripts).is_some());
    assert!(runtime.assemblies.get(AssemblyType::Engine).is_none());
}

#[test]
fn a_module_that_is_not_there_is_a_path_not_found() {
    let mut runtime = runtime();
    open(&mut runtime, &mut Managed::new());
    assert!(matches!(
        runtime.loaded(AssemblyType::Engine, HostReply { status: 0, out: 0 }),
        Err(Error::PathNotFound)
    ));
    assert!(runtime.assemblies.get(AssemblyType::Engine).is_none());
    assert!(matches!(
        runtime.loaded(AssemblyType::Engine, HostReply { status: 10, out: 77 }),
        Err(Error::AssemblyNotLoaded)
    ));
    assert!(runtime.assemblies.get(AssemblyType::Engine).is_none());
    assert!(runtime.loaded(AssemblyType::Engine, HostReply { status: 0, out: 77 }).is_ok());
    assert_eq!(runtime.assemblies.get(AssemblyType::Engine).unwrap().as_ptr(), 77);
}

#[test]
fn create_before_register_fails_with_class_not_registered() {
    let (mut runtime, mut managed) = ready();
    assert!(matches!(create(&runtime, &mut managed, "Player"), Err(Error::ClassNotRegistered)));
    assert_eq!(managed.asked(is_new), 0);
    register(&mut runtime, &mut managed, "Player").unwrap();
    assert!(create(&runtime, &mut managed, "Player").is_ok());
    assert!(matches!(create(&runtime, &mut managed, "Enemy"), Err(Error::ClassNotRegistered)));
    assert!(matches!(create(&runtime, &mut managed, "player"), Err(Error::ClassNotRegistered)));
}

#[test]
fn create_after_register_gives_a_distinct_object_each_time() {
    let (mut runtime, mut managed) = ready();
    register(&mut runtime, &mut managed, "Player").unwrap();
    let first = create(&runtime, &mut managed, "Player").unwrap();
    let second = create(&runtime, &mut managed, "Player").unwrap();
    assert_ne!(first.instance.as_ptr(), second.instance.as_ptr());
    assert_eq!(first.index, 0);
    assert_eq!(second.index, 0);
    assert_eq!(first.as_ref().as_ptr(), first.instance.as_ptr());
    assert_eq!(managed.asked(is_new), 2);
}

#[test]
fn an_instance_that_does_not_come_is_an_unknown_managed_error() {
    let (mut runtime, mut managed) = ready();
    register(&mut runtime, &mut managed, "Player").unwrap();
    assert!(matches!(
        runtime.created(0, HostReply { status: 0, out: 0 }),
        Err(Error::UnknownManaged)
    ));
    assert!(matches!(
        runtime.created(0, HostReply { status: 1, out: 0 }),
        Err(Error::ClassNotFound)
    ));
    let script = runtime.created(0, HostReply { status: 0, out: 31 }).unwrap();
    assert_eq!(script.index, 0);
    assert_eq!(script.instance.as_ptr(), 31);
}

#[test]
fn registering_needs_the_scripts_module() {
    let mut runtime = runtime();
    let mut managed = Managed::new();
    open(&mut runtime, &mut managed);
    assert!(matches!(
        register(&mut runtime, &mut managed, "Player"),
        Err(Error::AssemblyNotLoaded)
    ));
    load(&mut runtime, &mut managed, AssemblyType::Engine).unwrap();
    assert!(matches!(
        register(&mut runtime, &mut managed, "Player"),
        Err(Error::AssemblyNotLoaded)
    ));
    assert_eq!(managed.asked(is_get_class), 0);
    load(&mut runtime, &mut managed, AssemblyType::Scripts).unwrap();
    assert!(register(&mut runtime, &mut managed, "Player").is_ok());
}

#[test]
fn registering_an_unknown_class_fails_with_class_not_found() {
    let (mut runtime, mut managed) = ready();
    assert!(matches!(
        register(&mut runtime, &mut managed, "Ghost"),
        Err(Error::ClassNotFound)
    ));
    assert!(matches!(
        register(&mut runtime, &mut managed, "Broken"),
        Err(Error::UnknownManaged)
    ));
    assert_eq!(runtime.scripts.len(), 0);
    assert!(matches!(create(&runtime, &mut managed, "Ghost"), Err(Error::ClassNotRegistered)));
}

#[test]
fn the_class_is_asked_for_in_the_scripts_module_by_terminated_name() {
    let (runtime, _) = ready();
    let scripts = runtime.assemblies.get(AssemblyType::Scripts).unwrap().as_ptr();
    assert_eq!(
        runtime.register("Player").unwrap(),
        Some(HostCall::GetClass { function: 107, assembly: scripts, name: "Player\0".to_string() })
    );
    let (class, call) = runtime.describe(HostReply { status: 0, out: 5000 }).unwrap();
    assert_eq!(class.as_ptr(), 5000);
    assert_eq!(call, HostCall::GetMetaData { function: 111, class: 5000 });
}

#[test]
fn the_description_is_fetched_once_and_kept() {
    let (mut runtime, mut managed) = ready();
    register(&mut runtime, &mut managed, "Player").unwrap();
    let script = create(&runtime, &mut managed, "Player").unwrap();
    assert!(runtime.knows(&script));
    {
        let metadata = runtime.get_meta_data(&script);
        assert_eq!(metadata.fields.len(), 1);
        assert_eq!(metadata.fields[0].name, "Position");
        assert!(!metadata.fields[0].is_static);
        assert_eq!(
            metadata.fields[0].custom_attributes,
            vec![serde_json::Value::String("Export".to_string())]
        );
        assert_eq!(metadata.properties.len(), 1);
        assert_eq!(metadata.properties[0].name, "Health");
        assert!(metadata.properties[0].can_read);
        assert!(!metadata.properties[0].can_write);
    }
    get_method(&mut runtime, &mut managed, &script, "Update", 1).unwrap().unwrap();
    register(&mut runtime, &mut managed, "Enemy").unwrap();
    assert_eq!(runtime.get_meta_data(&script).fields[0].name, "Position");
    assert_eq!(
        managed.asked(|call| matches!(call, HostCall::GetMetaData { .. })),
        2
    );
    assert_eq!(managed.freed.len(), 1);
}

#[test]
fn a_class_without_a_description_has_an_empty_one() {
    let (mut runtime, mut managed) = ready();
    register(&mut runtime, &mut managed, "Enemy").unwrap();
    let script = create(&runtime, &mut managed, "Enemy").unwrap();
    assert!(runtime.get_meta_data(&script).fields.is_empty());
    assert!(runtime.get_meta_data(&script).properties.is_empty());
    let empty = MetaData::from_decoded(None).unwrap();
    assert!(empty.fields.is_empty() && empty.properties.is_empty());
    let same = MetaData::default();
    assert!(same.fields.is_empty() && same.properties.is_empty());
}

#[test]
fn a_malformed_description_is_a_json_error() {
    let verdict = decode_metadata("{\"Fields\":[");
    assert!(verdict.is_err());
    assert!(matches!(MetaData::from_decoded(Some(verdict)), Err(Error::Json(_))));
    let verdict = decode_metadata("{\"Fields\":[],\"Properties\":[]}");
    let metadata = MetaData::from_decoded(Some(verdict)).unwrap();
    assert!(metadata.fields.is_empty());
}

#[test]
fn types_are_appended_in_the_order_of_their_registration() {
    let (mut runtime, mut managed) = ready();
    register(&mut runtime, &mut managed, "Player").unwrap();
    register(&mut runtime, &mut managed, "Enemy").unwrap();
    assert_eq!(runtime.scripts.len(), 2);
    assert_eq!(runtime.scripts.lookup("Player"), Some(0));
    assert_eq!(runtime.scripts.lookup("Enemy"), Some(1));
    assert_eq!(runtime.scripts.get(0).name(), "Player");
    assert_eq!(runtime.scripts.get(1).name(), "Enemy");
    assert_eq!(create(&runtime, &mut managed, "Enemy").unwrap().index, 1);
}

#[test]
fn a_name_is_registered_once() {
    let (mut runtime, mut managed) = ready();
    register(&mut runtime, &mut managed, "Player").unwrap();
    let script = create(&runtime, &mut managed, "Player").unwrap();
    let cached = get_method(&mut runtime, &mut managed, &script, "Update", 1).unwrap().unwrap();
    let first = runtime.scripts.get(0).class().as_ptr();
    let asked = managed.asked(is_get_class);

    assert_eq!(runtime.register("Player").unwrap(), None);
    register(&mut runtime, &mut managed, "Player").unwrap();

    assert_eq!(managed.asked(is_get_class), asked);
    assert_eq!(runtime.scripts.len(), 1);
    assert_eq!(runtime.scripts.lookup("Player"), Some(0));
    assert_eq!(runtime.scripts.get(0).class().as_ptr(), first);
    assert_eq!(create(&runtime, &mut managed, "Player").unwrap().index, 0);
    let again = get_method(&mut runtime, &mut managed, &script, "Update", 1).unwrap().unwrap();
    assert_eq!(again.method.as_ptr(), cached.method.as_ptr());
}

#[test]
fn a_class_enrolled_under_a_registered_name_comes_back() {
    let (mut runtime, mut managed) = ready();
    register(&mut runtime, &mut managed, "Player").unwrap();
    let first = runtime.scripts.get(0).class().as_ptr();
    let (class, _) = runtime.describe(HostReply { status: 0, out: 5555 }).unwrap();
    let back = runtime.enroll("Player", class, MetaData::default());
    assert_eq!(
        back.map(|spare| spare.release()),
        Some(HostCall::Destroy { function: 102, handle: 5555 })
    );
    assert_eq!(runtime.scripts.len(), 1);
    assert_eq!(runtime.scripts.get(0).class().as_ptr(), first);
    assert_eq!(runtime.get_meta_data(&create(&runtime, &mut managed, "Player").unwrap()).fields.len(), 1);

    let (class, _) = runtime.describe(HostReply { status: 0, out: 5556 }).unwrap();
    assert!(runtime.enroll("Enemy", class, MetaData::default()).is_none());
    assert_eq!(runtime.scripts.len(), 2);
    assert_eq!(runtime.scripts.get(1).class().as_ptr(), 5556);
}

#[test]
fn get_method_twice_returns_the_same_method_and_asks_once() {
    let (mut runtime, mut managed) = ready();
    register(&mut runtime, &mut managed, "Player").unwrap();
    let script = create(&runtime, &mut managed, "Player").unwrap();
    let first = get_method(&mut runtime, &mut managed, &script, "Update", 1).unwrap().unwrap();
    let second = get_method(&mut runtime, &mut managed, &script, "Update", 1).unwrap().unwrap();
    assert_eq!(first.method.as_ptr(), second.method.as_ptr());
    assert!(Rc::ptr_eq(&first.method, &second.method));
    assert_eq!(managed.asked(is_get_method), 1);
    assert!(matches!(runtime.get_method(&script, "Update", 1), MethodLookup::Cached(_)));
}

#[test]
fn the_cache_is_shared_by_the_instances_of_a_type() {
    let (mut runtime, mut managed) = ready();
    register(&mut runtime, &mut managed, "Player").unwrap();
    let one = create(&runtime, &mut managed, "Player").unwrap();
    let other = create(&runtime, &mut managed, "Player").unwrap();
    let first = get_method(&mut runtime, &mut managed, &one, "Awake", 0).unwrap().unwrap();
    let second = get_method(&mut runtime, &mut managed, &other, "Awake", 0).unwrap().unwrap();
    assert_eq!(first.method.as_ptr(), second.method.as_ptr());
    assert_eq!(first.instance.as_ptr(), one.instance.as_ptr());
    assert_eq!(second.instance.as_ptr(), other.instance.as_ptr());
    assert_eq!(managed.asked(is_get_method), 1);
}

#[test]
fn another_arity_is_another_cache_entry() {
    let (mut runtime, mut managed) = ready();
    register(&mut runtime, &mut managed, "Player").unwrap();
    let script = create(&runtime, &mut managed, "Player").unwrap();
    let one = get_method(&mut runtime, &mut managed, &script, "Update", 1).unwrap().unwrap();
    assert!(matches!(runtime.get_method(&script, "Update", 2), MethodLookup::Query(_)));
    let two = get_method(&mut runtime, &mut managed, &script, "Update", 2).unwrap().unwrap();
    assert_ne!(one.method.as_ptr(), two.method.as_ptr());
    assert_eq!(managed.asked(is_get_method), 2);
    let again = get_method(&mut runtime, &mut managed, &script, "Update", 1).unwrap().unwrap();
    assert_eq!(again.method.as_ptr(), one.method.as_ptr());
    assert!(matches!(runtime.get_method(&script, "update", 1), MethodLookup::Query(_)));
    assert_eq!(managed.asked(is_get_method), 2);
}

#[test]
fn the_method_is_asked_for_on_the_class_by_terminated_name() {
    let (mut runtime, mut managed) = ready();
    register(&mut runtime, &mut managed, "Player").unwrap();
    let script = create(&runtime, &mut managed, "Player").unwrap();
    let class = runtime.scripts.get(0).class().as_ptr();
    match runtime.get_method(&script, "Update", 1) {
        MethodLookup::Query(call) => assert_eq!(
            call,
            HostCall::GetMethod { function: 110, class, name: "Update\0".to_string(), arity: 1 }
        ),
        other => panic!("unexpected lookup: {:?}", other),
    }
}

#[test]
fn a_method_that_does_not_exist_is_absent_for_every_arity_and_never_an_error() {
    let (mut runtime, mut managed) = ready();
    register(&mut runtime, &mut managed, "Player").unwrap();
    let script = create(&runtime, &mut managed, "Player").unwrap();
    for arity in [0, 1, 2, 7, -1, i32::MAX] {
        let outcome = get_method(&mut runtime, &mut managed, &script, "Fly", arity);
        assert!(matches!(outcome, Ok(None)), "arity {arity}");
    }
    assert!(matches!(get_method(&mut runtime, &mut managed, &script, "Awake", 1), Ok(None)));
    for arity in [0, 1, 2, 7, -1, i32::MAX] {
        let outcome = get_method(&mut runtime, &mut managed, &script, "Gone", arity);
        assert!(matches!(outcome, Ok(None)), "arity {arity}");
    }
    let gone = runtime.cache_method(&script, "Gone", 0, HostReply { status: 2, out: 6600 }).unwrap();
    assert!(gone.invokable.is_none());
    assert!(gone.spare.is_none());
}

#[test]
fn a_lookup_that_fails_is_told_from_a_method_that_is_absent() {
    let (mut runtime, mut managed) = ready();
    register(&mut runtime, &mut managed, "Player").unwrap();
    let script = create(&runtime, &mut managed, "Player").unwrap();
    assert!(matches!(
        get_method(&mut runtime, &mut managed, &script, "Throws", 0),
        Err(Error::MissingRequiredArgument)
    ));
    assert!(matches!(
        runtime.cache_method(&script, "Update", 1, HostReply { status: 1, out: 0 }),
        Err(Error::ClassNotFound)
    ));
    assert!(matches!(
        runtime.cache_method(&script, "Update", 1, HostReply { status: 12, out: 0 }),
        Err(Error::UnknownManaged)
    ));
    assert!(matches!(runtime.get_method(&script, "Update", 1), MethodLookup::Query(_)));
}

#[test]
fn an_absent_method_is_not_cached() {
    let (mut runtime, mut managed) = ready();
    register(&mut runtime, &mut managed, "Player").unwrap();
    let script = create(&runtime, &mut managed, "Player").unwrap();
    assert!(matches!(get_method(&mut runtime, &mut managed, &script, "Fly", 0), Ok(None)));
    assert!(matches!(runtime.get_method(&script, "Fly", 0), MethodLookup::Query(_)));
    assert!(matches!(get_method(&mut runtime, &mut managed, &script, "Fly", 0), Ok(None)));
    assert_eq!(managed.asked(is_get_method), 2);
    let gone = runtime.cache_method(&script, "Fly", 0, HostReply { status: 2, out: 0 }).unwrap();
    assert!(gone.invokable.is_none() && gone.spare.is_none());
    let none = runtime.cache_method(&script, "Fly", 0, HostReply { status: 0, out: 0 }).unwrap();
    assert!(none.invokable.is_none() && none.spare.is_none());
    assert!(matches!(runtime.get_method(&script, "Fly", 0), MethodLookup::Query(_)));
    assert!(matches!(
        runtime.cache_method(&script, "Fly", 0, HostReply { status: 8, out: 0 }),
        Err(Error::MissingRequiredArgument)
    ));
    assert!(matches!(runtime.get_method(&script, "Fly", 0), MethodLookup::Query(_)));
}

#[test]
fn an_instance_of_no_registered_type_has_no_methods() {
    let (mut runtime, mut managed) = ready();
    register(&mut runtime, &mut managed, "Player").unwrap();
    let stray = runtime.created(5, HostReply { status: 0, out: 31 }).unwrap();
    assert!(!runtime.knows(&stray));
    assert!(matches!(runtime.get_method(&stray, "Update", 1), MethodLookup::Unregistered));
    assert!(matches!(get_method(&mut runtime, &mut managed, &stray, "Update", 1), Ok(None)));
    assert_eq!(managed.asked(is_get_method), 0);
}

#[test]
fn clear_purges_the_cache() {
    let (mut runtime, mut managed) = ready();
    register(&mut runtime, &mut managed, "Player").unwrap();
    let script = create(&runtime, &mut managed, "Player").unwrap();
    let cached = get_method(&mut runtime, &mut managed, &script, "Update", 1).unwrap().unwrap().method.as_ptr();
    let old_scope = runtime.scope.as_ref().unwrap().as_ptr();
    let class = runtime.scripts.get(0).class().as_ptr();

    clear(&mut runtime, &mut managed).unwrap();

    assert_eq!(runtime.scripts.len(), 0);
    assert_eq!(runtime.scripts.lookup("Player"), None);
    assert!(runtime.assemblies.get(AssemblyType::Scripts).is_none());
    assert!(runtime.assemblies.get(AssemblyType::Engine).is_none());
    assert_ne!(runtime.scope.as_ref().unwrap().as_ptr(), old_scope);
    assert_eq!(managed.unloaded, vec![old_scope]);
    assert!(managed.released.contains(&class));
    assert!(managed.released.contains(&cached));

    assert!(!runtime.knows(&script));
    let before = managed.asked(is_get_method);
    assert!(matches!(runtime.get_method(&script, "Update", 1), MethodLookup::Unregistered));
    assert!(matches!(get_method(&mut runtime, &mut managed, &script, "Update", 1), Ok(None)));
    assert_eq!(managed.asked(is_get_method), before);
    assert!(matches!(create(&runtime, &mut managed, "Player"), Err(Error::ClassNotRegistered)));
    assert!(matches!(
        register(&mut runtime, &mut managed, "Player"),
        Err(Error::AssemblyNotLoaded)
    ));
}

#[test]
fn after_a_clear_everything_has_to_be_registered_anew() {
    let (mut runtime, mut managed) = ready();
    register(&mut runtime, &mut managed, "Player").unwrap();
    let script = create(&runtime, &mut managed, "Player").unwrap();
    let old = get_method(&mut runtime, &mut managed, &script, "Update", 1).unwrap().unwrap().method.as_ptr();
    clear(&mut runtime, &mut managed).unwrap();
    load(&mut runtime, &mut managed, AssemblyType::Scripts).unwrap();
    register(&mut runtime, &mut managed, "Player").unwrap();
    let script = create(&runtime, &mut managed, "Player").unwrap();
    let before = managed.asked(is_get_method);
    let new = get_method(&mut runtime, &mut managed, &script, "Update", 1).unwrap().unwrap().method.as_ptr();
    assert_eq!(managed.asked(is_get_method), before + 1);
    assert_ne!(old, new);
}

#[test]
fn the_first_clear_has_no_scope_to_unload() {
    let mut runtime = runtime();
    let purged = runtime.clear(runtime.library.scope_from(9000));
    assert!(purged.scope.is_none());
    assert!(purged.types.is_empty());
    assert_eq!(runtime.scope.as_ref().unwrap().as_ptr(), 9000);
    let purged = runtime.clear(runtime.library.scope_from(9001));
    assert_eq!(purged.scope.unwrap().unload(), HostCall::Unload { function: 105, scope: 9000 });
    assert_eq!(runtime.scope.as_ref().unwrap().as_ptr(), 9001);
}

#[test]
fn a_failed_unload_is_reported() {
    let (mut runtime, mut managed) = ready();
    managed.unload_status = 12;
    assert!(matches!(clear(&mut runtime, &mut managed), Err(Error::UnknownManaged)));
    assert!(runtime.cleared(HostReply { status: 0, out: 0 }).is_ok());
    assert!(matches!(
        runtime.cleared(HostReply { status: 10, out: 0 }),
        Err(Error::AssemblyNotLoaded)
    ));
}

#[test]
fn a_negative_unload_status_is_an_error_too() {
    let (mut runtime, mut managed) = ready();
    managed.unload_status = -1;
    assert!(matches!(clear(&mut runtime, &mut managed), Err(Error::UnknownManaged)));
    assert!(matches!(
        runtime.cleared(HostReply { status: -1, out: 0 }),
        Err(Error::UnknownManaged)
    ));
    assert!(matches!(
        runtime.cleared(HostReply { status: i32::MIN, out: 0 }),
        Err(Error::UnknownManaged)
    ));
    managed.unload_status = 0;
    assert!(clear(&mut runtime, &mut managed).is_ok());
}

#[test]
fn a_purged_type_gives_up_its_class_and_each_method_once() {
    let (mut runtime, mut managed) = ready();
    register(&mut runtime, &mut managed, "Player").unwrap();
    let script = create(&runtime, &mut managed, "Player").unwrap();
    let awake = get_method(&mut runtime, &mut managed, &script, "Awake", 0).unwrap().unwrap().method.as_ptr();
    let update = get_method(&mut runtime, &mut managed, &script, "Update", 1).unwrap().unwrap().method.as_ptr();
    let class = runtime.scripts.get(0).class().as_ptr();
    let purged = runtime.clear(runtime.library.scope_from(9000));
    assert_eq!(purged.types.len(), 1);
    let (released, methods) = purged.types.into_iter().next().unwrap().release();
    assert_eq!(released.release(), HostCall::Destroy { function: 102, handle: class });
    let mut keys: Vec<(String, i32, usize)> = methods
        .iter()
        .map(|cached| (cached.name.clone(), cached.arity, cached.method.as_ptr()))
        .collect();
    keys.sort();
    assert_eq!(
        keys,
        vec![("Awake".to_string(), 0, awake), ("Update".to_string(), 1, update)]
    );
    for cached in methods {
        let handle = cached.method.as_ptr();
        assert_eq!(
            release_shared(cached.method),
            Some(HostCall::Destroy { function: 102, handle })
        );
    }
}

#[test]
fn a_shared_method_is_released_by_its_last_holder() {
    let (mut runtime, mut managed) = ready();
    register(&mut runtime, &mut managed, "Player").unwrap();
    let script = create(&runtime, &mut managed, "Player").unwrap();
    let invokable = get_method(&mut runtime, &mut managed, &script, "Update", 1).unwrap().unwrap();
    let handle = invokable.method.as_ptr();
    let purged = runtime.clear(runtime.library.scope_from(9000));
    let (_, methods) = purged.types.into_iter().next().unwrap().release();
    for cached in methods {
        assert_eq!(release_shared(cached.method), None);
    }
    assert_eq!(
        release_shared(invokable.method),
        Some(HostCall::Destroy { function: 102, handle })
    );
}

#[test]
fn arguments_are_passed_in_order() {
    let (mut runtime, mut managed) = ready();
    register(&mut runtime, &mut managed, "Player").unwrap();
    let script = create(&runtime, &mut managed, "Player").unwrap();
    let first = create(&runtime, &mut managed, "Player").unwrap().instance;
    let second = create(&runtime, &mut managed, "Player").unwrap().instance;
    let (one, two) = (first.as_ptr(), second.as_ptr());
    let invokable = get_method(&mut runtime, &mut managed, &script, "Update", 2).unwrap().unwrap();
    let method = invokable.method.as_ptr();
    let instance = script.instance.as_ptr();
    assert_eq!(
        invokable.invoke(()),
        HostCall::RuntimeInvoke { function: 116, method, instance, args: Vec::new() }
    );
    assert_eq!(
        invokable.invoke((first, second)),
        HostCall::RuntimeInvoke { function: 116, method, instance, args: vec![one, two] }
    );
    let third = create(&runtime, &mut managed, "Player").unwrap().instance;
    let three = third.as_ptr();
    assert_eq!(
        invokable.invoke(third),
        HostCall::RuntimeInvoke { function: 116, method, instance, args: vec![three] }
    );
    assert!(invokable.invoked(HostReply { status: 0, out: 0 }).is_ok());
    assert!(matches!(
        invokable.invoked(HostReply { status: 8, out: 0 }),
        Err(Error::MissingRequiredArgument)
    ));
}

#[test]
fn a_field_that_was_set_is_read_back() {
    let (mut runtime, mut managed) = ready();
    register(&mut runtime, &mut managed, "Player").unwrap();
    let script = create(&runtime, &mut managed, "Player").unwrap();
    managed.values.insert(1, "{\"x\":1,\"y\":2,\"z\":3}".to_string());

    let reply = managed.answer(script.instance.get_field_value("Position"));
    assert!(matches!(script.instance.read(reply), Ok(None)));

    let reply = managed.answer(script.instance.set_field_value("Position", 1));
    script.instance.written(reply).unwrap();
    let reply = managed.answer(script.instance.get_field_value("Position"));
    let payload = script.instance.read(reply).unwrap().unwrap();
    let buffer = payload.as_ptr();
    let verdict = serde_json::from_str::<serde_json::Value>(&managed.buffers[&buffer])
        .map_err(|error| error.to_string());
    managed.answer(payload.release());
    let value = decoded(verdict).unwrap().unwrap();
    assert_eq!(value.get("x").and_then(|x| x.as_i64()), Some(1));
    assert_eq!(value.get("y").and_then(|y| y.as_i64()), Some(2));
    assert_eq!(value.get("z").and_then(|z| z.as_i64()), Some(3));
    assert_eq!(managed.freed.last(), Some(&buffer));
    assert_eq!(managed.freed.iter().filter(|freed| **freed == buffer).count(), 1);
}

#[test]
fn a_garbled_value_is_a_json_error_and_its_buffer_is_still_freed() {
    let (mut runtime, mut managed) = ready();
    register(&mut runtime, &mut managed, "Player").unwrap();
    let script = create(&runtime, &mut managed, "Player").unwrap();
    let reply = managed.answer(script.instance.get_field_value("Garbled"));
    let payload = script.instance.read(reply).unwrap().unwrap();
    let buffer = payload.as_ptr();
    let verdict = serde_json::from_str::<serde_json::Value>(&managed.buffers[&buffer])
        .map_err(|error| error.to_string());
    managed.answer(payload.release());
    assert!(matches!(decoded(verdict), Err(Error::Json(_))));
    assert_eq!(managed.freed.last(), Some(&buffer));
    assert_eq!(managed.freed.iter().filter(|freed| **freed == buffer).count(), 1);
}

#[test]
fn a_property_without_the_accessor_fails_by_name() {
    let (mut runtime, mut managed) = ready();
    register(&mut runtime, &mut managed, "Player").unwrap();
    let script = create(&runtime, &mut managed, "Player").unwrap();
    managed.values.insert(1, "5".to_string());
    let reply = managed.answer(script.instance.set_property_value("Health", 1));
    assert!(matches!(script.instance.written(reply), Err(Error::MissingSetter)));
    let reply = managed.answer(script.instance.get_property_value("Secret"));
    assert!(matches!(script.instance.read(reply), Err(Error::MissingGetter)));
    let reply = managed.answer(script.instance.set_field_value("Origin", 1));
    assert!(matches!(script.instance.written(reply), Err(Error::ReadonlyField)));
    let reply = managed.answer(script.instance.get_field_value("Nothing"));
    assert!(matches!(script.instance.read(reply), Err(Error::FieldNotFound)));
    let reply = managed.answer(script.instance.get_property_value("Nothing"));
    assert!(matches!(script.instance.read(reply), Err(Error::PropertyNotFound)));
}

#[test]
fn a_player_is_registered_created_moved_and_updated() {
    let (mut runtime, mut managed) = ready();
    let reply = managed.answer(runtime.library.ping());
    assert!(RuntimeLibrary::alive(u32::try_from(reply.out).unwrap()));

    register(&mut runtime, &mut managed, "Player").unwrap();
    let script = create(&runtime, &mut managed, "Player").unwrap();
    assert_eq!(runtime.get_meta_data(&script).fields[0].name, "Position");

    let position: [f32; 3] = [1.2, 2.4, 3.6];
    managed.values.insert(77, format!("{{\"x\":{},\"y\":{},\"z\":{}}}", position[0], position[1], position[2]));
    let reply = managed.answer(script.instance.set_property_value("Position", 77));
    assert!(script.instance.written(reply).is_ok());

    let awake = get_method(&mut runtime, &mut managed, &script, "Awake", 0).unwrap();
    let awake = awake.expect("Awake() is there");
    let reply = managed.answer(awake.invoke(()));
    assert!(awake.invoked(reply).is_ok());

    let update = get_method(&mut runtime, &mut managed, &script, "Update", 1).unwrap();
    let update = update.expect("Update(float) is there");
    let dt: f32 = 0.016;
    let address = 4242;
    managed.values.insert(address, dt.to_string());
    let call = HostCall::RuntimeInvoke {
        function: update.invoke,
        method: update.method.as_ptr(),
        instance: update.instance.as_ptr(),
        args: vec![address],
    };
    let reply = managed.answer(call);
    assert!(update.invoked(reply).is_ok());
    assert_eq!(
        managed.invoked,
        vec![
            (awake.method.as_ptr(), script.instance.as_ptr(), Vec::new()),
            (update.method.as_ptr(), script.instance.as_ptr(), vec![address]),
        ]
    );

    let reply = managed.answer(script.instance.get_property_value("Position"));
    let payload = script.instance.read(reply).unwrap().unwrap();
    let read: serde_json::Value = serde_json::from_str(&managed.buffers[&payload.as_ptr()]).unwrap();
    managed.answer(payload.release());
    assert_eq!(read.get("x").and_then(|x| x.as_f64()).map(|x| x as f32), Some(1.2f32));
    assert_eq!(read.get("y").and_then(|y| y.as_f64()).map(|y| y as f32), Some(2.4f32));
    assert_eq!(read.get("z").and_then(|z| z.as_f64()).map(|z| z as f32), Some(3.6f32));
}

#[test]
fn a_key_has_one_method() {
    let (mut runtime, mut managed) = ready();
    register(&mut runtime, &mut managed, "Player").unwrap();
    let script = create(&runtime, &mut managed, "Player").unwrap();
    let cached = get_method(&mut runtime, &mut managed, &script, "Update", 1).unwrap().unwrap();
    let late = runtime
        .cache_method(&script, "Update", 1, HostReply { status: 0, out: 6500 })
        .unwrap();
    let bound = late.invokable.unwrap();
    assert_eq!(bound.method.as_ptr(), cached.method.as_ptr());
    assert!(Rc::ptr_eq(&bound.method, &cached.method));
    assert_eq!(bound.instance.as_ptr(), script.instance.as_ptr());
    assert_eq!(
        late.spare.map(|spare| spare.release()),
        Some(HostCall::Destroy { function: 102, handle: 6500 })
    );
    let again = get_method(&mut runtime, &mut managed, &script, "Update", 1).unwrap().unwrap();
    assert_eq!(again.method.as_ptr(), cached.method.as_ptr());
}

#[test]
fn a_method_resolved_for_an_unregistered_type_is_spare() {
    let (mut runtime, _) = ready();
    let stray = runtime.created(3, HostReply { status: 0, out: 31 }).unwrap();
    let resolved = runtime
        .cache_method(&stray, "Update", 1, HostReply { status: 0, out: 6500 })
        .unwrap();
    assert!(resolved.invokable.is_none());
    assert_eq!(
        resolved.spare.map(|spare| spare.release()),
        Some(HostCall::Destroy { function: 102, handle: 6500 })
    );
    assert!(matches!(runtime.get_method(&stray, "Update", 1), MethodLookup::Unregistered));
    assert_eq!(runtime.scripts.len(), 0);
}

#[test]
fn a_fresh_method_is_cached_and_nothing_is_spare() {
    let (mut runtime, mut managed) = ready();
    register(&mut runtime, &mut managed, "Player").unwrap();
    let script = create(&runtime, &mut managed, "Player").unwrap();
    let resolved = runtime
        .cache_method(&script, "Update", 1, HostReply { status: 0, out: 6500 })
        .unwrap();
    assert!(resolved.spare.is_none());
    assert_eq!(resolved.invokable.unwrap().method.as_ptr(), 6500);
    match runtime.get_method(&script, "Update", 1) {
        MethodLookup::Cached(invokable) => assert_eq!(invokable.method.as_ptr(), 6500),
        other => panic!("unexpected lookup: {:?}", other),
    }
}

#[test]
fn closing_lets_go_of_everything() {
    let (mut runtime, mut managed) = ready();
    register(&mut runtime, &mut managed, "Player").unwrap();
    let scope = runtime.scope.as_ref().unwrap().as_ptr();
    let class = runtime.scripts.get(0).class().as_ptr();
    let purged = runtime.close();
    assert!(runtime.scope.is_none());
    assert_eq!(runtime.scripts.len(), 0);
    assert!(runtime.assemblies.get(AssemblyType::Engine).is_none());
    assert!(runtime.assemblies.get(AssemblyType::Scripts).is_none());
    assert_eq!(purged.types.len(), 1);
    assert_eq!(purged.types[0].class().as_ptr(), class);
    assert_eq!(purged.scope.unwrap().unload(), HostCall::Unload { function: 105, scope });
    let again = runtime.close();
    assert!(again.scope.is_none());
    assert!(again.types.is_empty());
}

#[test]
fn a_share_is_released_only_where_it_was_the_last() {
    let library = library();
    let last = library.method_from(HostReply { status: 0, out: 6000 }).unwrap().unwrap();
    assert_eq!(
        release_unwrapped(Ok(last)),
        Some(HostCall::Destroy { function: 102, handle: 6000 })
    );
    let held = Rc::new(library.method_from(HostReply { status: 0, out: 6001 }).unwrap().unwrap());
    assert_eq!(release_unwrapped(Err(held.clone())), None);
    assert_eq!(release_shared(held.clone()), None);
    assert_eq!(
        release_shared(held),
        Some(HostCall::Destroy { function: 102, handle: 6001 })
    );
}

#[test]
fn an_argument_list_holds_each_argument_once_in_order() {
    let library = library();
    let object = |address: usize| {
        library.object_from(HostReply { status: 0, out: address }).unwrap().unwrap()
    };
    assert_eq!(().into_managed_params(), Vec::<usize>::new());
    assert_eq!(object(71).into_managed_param(), 71);
    assert_eq!(object(71).into_managed_params(), vec![71]);
    assert_eq!(one_param(object(73)), vec![73]);
    assert_eq!((object(71), object(72)).into_managed_params(), vec![71, 72]);
    assert_eq!((object(72), object(71)).into_managed_params(), vec![72, 71]);
}
