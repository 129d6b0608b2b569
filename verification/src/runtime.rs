//! The reflection cache: which script types are registered, under which
//! names, and which of their methods have been resolved.

use std::rc::Rc;
use vstd::hash_map::StringHashMap;
use vstd::prelude::*;
use vstd::string::StringExecFns;

use crate::error::{error_of_status, outcome_of_status, Error, Result};
use crate::handle::{Assembly, Class, ManagedParams, Method, Object, Scope, Wrapper};
use crate::library::{HostFunction, RuntimeLibrary};
use crate::marshal::{
    handle_of_reply, method_of_reply, nul_terminated_text, unload_outcome, HostCall, HostReply,
};
use crate::metadata::MetaData;
use crate::path::{join, joined};

verus! {

/// Where the runtime and the bridge are found on disk.
#[derive(Debug, Clone, PartialEq, Eq)]
pub struct Paths {
    pub exe: String,
    pub config: String,
    pub dll: String,
    pub dotnet: String,
    pub hostfxr: String,
    pub managed: String,
}

/// The versions that the bridge was built for.
#[derive(Debug, Clone, PartialEq, Eq)]
pub struct Versions {
    pub framework: String,
    pub net: String,
}

/// The path of the hosting shim: under the runtime's install root, in the
/// subdirectory of the framework version.
pub open spec fn shim_path(dotnet: Seq<char>, framework: Seq<char>, shim: Seq<char>) -> Seq<char> {
    joined(joined(joined(joined(dotnet, "host"@), "fxr"@), framework), shim)
}

impl Paths {
    /// Lays out the paths. The runtime configuration and the bridge assembly
    /// sit beside the executable; the hosting shim, whose file name is
    /// `shim`, sits under the install root `dotnet`. Without an install root
    /// there is nothing to host: `PathNotFound`.
    pub fn locate(exe_dir: &str, dotnet: Option<&str>, framework: &str, shim: &str) -> (outcome:
        Result<Paths>)
        ensures
            dotnet.is_none() ==> outcome == Err::<Paths, Error>(Error::PathNotFound),
            dotnet matches Some(root) ==> outcome matches Ok(paths) && paths.exe@ == exe_dir@
                && paths.dotnet@ == root@ && paths.config@ == joined(
                exe_dir@,
                "Runtime.runtimeconfig.json"@,
            ) && paths.dll@ == joined(exe_dir@, "Runtime.dll"@) && paths.hostfxr@ == shim_path(
                root@,
                framework@,
                shim@,
            ) && paths.managed@ == "assets"@,
    {
        match dotnet {
            None => Err(Error::PathNotFound),
            Some(root) => {
                let host = join(root, "host");
                let fxr = join(host.as_str(), "fxr");
                let version = join(fxr.as_str(), framework);
                Ok(
                    Paths {
                        exe: exe_dir.to_owned(),
                        config: join(exe_dir, "Runtime.runtimeconfig.json"),
                        dll: join(exe_dir, "Runtime.dll"),
                        dotnet: root.to_owned(),
                        hostfxr: join(version.as_str(), shim),
                        managed: "assets".to_owned(),
                    },
                )
            },
        }
    }
}

/// The two application-defined modules that the bridge loads.
#[derive(Clone, Copy, Debug, PartialEq, Eq, Hash, Structural)]
pub enum AssemblyType {
    Engine,
    Scripts,
}

/// The name of a module, as its file is named.
pub open spec fn assembly_name(assembly: AssemblyType) -> Seq<char> {
    match assembly {
        AssemblyType::Engine => "Engine"@,
        AssemblyType::Scripts => "Scripts"@,
    }
}

/// The file of a module: `managed/<name>.dll` under the base directory.
pub open spec fn assembly_path(assembly: AssemblyType, base: Seq<char>) -> Seq<char> {
    joined(joined(base, "managed"@), assembly_name(assembly) + ".dll"@)
}

impl AssemblyType {
    /// The name of the module.
    pub fn name(&self) -> (name: &'static str)
        ensures
            name@ == assembly_name(*self),
    {
        match self {
            AssemblyType::Engine => "Engine",
            AssemblyType::Scripts => "Scripts",
        }
    }

    /// The file that the module is loaded from.
    pub fn path(&self, base: &str) -> (path: String)
        ensures
            path@ == assembly_path(*self, base@),
    {
        let file = String::from_str(self.name()).concat(".dll");
        let managed = join(base, "managed");
        join(managed.as_str(), file.as_str())
    }
}

/// The loaded modules, at most one of each kind.
#[derive(Debug)]
pub struct Assemblies {
    pub engine: Option<Assembly>,
    pub scripts: Option<Assembly>,
}

impl Assemblies {
    /// The module of a kind, if it is loaded.
    pub open spec fn loaded(&self, assembly: AssemblyType) -> Option<Assembly> {
        match assembly {
            AssemblyType::Engine => self.engine,
            AssemblyType::Scripts => self.scripts,
        }
    }

    /// No module loaded.
    pub fn new() -> (assemblies: Assemblies)
        ensures
            forall|assembly: AssemblyType| assemblies.loaded(assembly).is_none(),
    {
        Assemblies { engine: None, scripts: None }
    }

    /// The module of a kind, if it is loaded.
    pub fn get(&self, assembly: AssemblyType) -> (found: Option<&Assembly>)
        ensures
            (match found {
                Some(module) => self.loaded(assembly) == Some(*module),
                None => self.loaded(assembly).is_none(),
            }),
    {
        match assembly {
            AssemblyType::Engine => self.engine.as_ref(),
            AssemblyType::Scripts => self.scripts.as_ref(),
        }
    }

    /// Records a loaded module, in place of one of the same kind.
    pub fn insert(&mut self, assembly: AssemblyType, module: Assembly)
        ensures
            final(self).loaded(assembly) == Some(module),
            forall|other: AssemblyType|
                other != assembly ==> final(self).loaded(other) == old(self).loaded(other),
    {
        match assembly {
            AssemblyType::Engine => {
                self.engine = Some(module);
            },
            AssemblyType::Scripts => {
                self.scripts = Some(module);
            },
        }
    }

    /// Forgets every module.
    pub fn clear(&mut self)
        ensures
            forall|assembly: AssemblyType| final(self).loaded(assembly).is_none(),
    {
        self.engine = None;
        self.scripts = None;
    }
}

/// A method cache key: the method's name and the number of its parameters.
pub type MethodKey = (Seq<char>, i32);

/// What the cache knows of one registered script type.
pub ghost struct TypeModel {
    pub name: Seq<char>,
    pub class: Class,
    pub metadata: MetaData,
    pub methods: Map<MethodKey, Method>,
}

/// What the cache knows: the registered types in the order of their
/// registration, and the place of each logical name among them.
pub ghost struct Registry {
    pub types: Seq<TypeModel>,
    pub index: Map<Seq<char>, usize>,
}

impl Registry {
    /// The cache with nothing registered.
    pub open spec fn empty() -> Registry {
        Registry { types: Seq::empty(), index: Map::empty() }
    }

    /// Every name leads to a type of that name, and every type is found at
    /// the place that its name leads to: a name is registered once.
    pub open spec fn consistent(self) -> bool {
        &&& forall|name: Seq<char>| #[trigger]
            self.index.contains_key(name) ==> self.index[name] < self.types.len()
                && self.types[self.index[name] as int].name == name
        &&& forall|place: int|
            0 <= place < self.types.len() ==> self.index.contains_key(
                #[trigger] self.types[place].name,
            ) && self.index[self.types[place].name] == place
    }

    /// The cache after the registration of a type. Under a name that is not
    /// registered yet the type is appended, with no method resolved, and the
    /// name leads to it. A name that is registered stays registered as it
    /// is, and the cache with it.
    pub open spec fn register(self, name: Seq<char>, class: Class, metadata: MetaData) -> Registry {
        if self.index.contains_key(name) {
            self
        } else {
            Registry {
                types: self.types.push(
                    TypeModel { name, class, metadata, methods: Map::empty() },
                ),
                index: self.index.insert(name, self.types.len() as usize),
            }
        }
    }

    /// The method that is cached for the type at `place` under a key.
    pub open spec fn cached(self, place: int, name: Seq<char>, arity: i32) -> Option<Method> {
        if 0 <= place < self.types.len() && self.types[place].methods.contains_key((name, arity)) {
            Some(self.types[place].methods[(name, arity)])
        } else {
            None
        }
    }

    /// The cache after a method was resolved for the type at `place`.
    pub open spec fn remember(self, place: int, name: Seq<char>, arity: i32, method: Method) -> Registry {
        Registry {
            types: self.types.update(
                place,
                TypeModel {
                    methods: self.types[place].methods.insert((name, arity), method),
                    ..self.types[place]
                },
            ),
            index: self.index,
        }
    }
}

/// The method that a shared handle stands for.
pub open spec fn shared_method(shared: Rc<Method>) -> Method {
    *shared
}

/// Whether the entry at a place of a list stands under a key.
pub open spec fn stands_under(entries: Seq<CachedMethod>, at: int, key: MethodKey) -> bool {
    0 <= at < entries.len() && entries[at].name@ == key.0 && entries[at].arity == key.1
}

/// One resolved method of a script type, under its key.
#[derive(Debug)]
pub struct CachedMethod {
    pub name: String,
    pub arity: i32,
    pub method: Rc<Method>,
}

/// A registered script type: its logical name, its class, its static
/// description and the methods resolved so far.
#[derive(Debug)]
pub struct Type {
    name: String,
    class: Class,
    methods: Vec<CachedMethod>,
    metadata: MetaData,
}

impl Type {
    spec fn holds(&self, at: int, name: Seq<char>, arity: i32) -> bool {
        0 <= at < self.methods@.len() && self.methods@[at].name@ == name && self.methods@[at].arity
            == arity
    }

    /// No key is cached twice.
    #[verifier::type_invariant]
    spec fn wf(&self) -> bool {
        forall|first: int, second: int|
            #![trigger self.methods@[first], self.methods@[second]]
            0 <= first < second < self.methods@.len() ==> !(self.methods@[first].name@
                == self.methods@[second].name@ && self.methods@[first].arity
                == self.methods@[second].arity)
    }

    /// The resolved methods, each under its key.
    pub closed spec fn cache(&self) -> Map<MethodKey, Method> {
        Map::new(
            |key: MethodKey| exists|at: int| self.holds(at, key.0, key.1),
            |key: MethodKey| *self.methods@[choose|at: int| self.holds(at, key.0, key.1)].method,
        )
    }

    fn new(name: String, class: Class, metadata: MetaData) -> (registered: Type)
        ensures
            registered@ == (TypeModel {
                name: name@,
                class,
                metadata,
                methods: Map::<MethodKey, Method>::empty(),
            }),
    {
        let registered = Type { name, class, methods: Vec::new(), metadata };
        assert(registered.cache() =~= Map::<MethodKey, Method>::empty());
        registered
    }

    /// The logical name that the type was registered under.
    pub fn name(&self) -> (name: &str)
        ensures
            name@ == self@.name,
    {
        self.name.as_str()
    }

    /// The class of the type.
    pub fn class(&self) -> (class: &Class)
        ensures
            *class == self@.class,
    {
        &self.class
    }

    /// The description that was fetched when the type was registered.
    pub fn metadata(&self) -> (metadata: &MetaData)
        ensures
            *metadata == self@.metadata,
    {
        &self.metadata
    }

    /// Takes the type apart for release: its class, and every cached method
    /// once, under its key.
    pub fn release(self) -> (parts: (Class, Vec<CachedMethod>))
        ensures
            parts.0 == self@.class,
            forall|at: int|
                0 <= at < parts.1@.len() ==> self@.methods.contains_key(
                    (#[trigger] parts.1@[at].name@, parts.1@[at].arity),
                ) && self@.methods[(parts.1@[at].name@, parts.1@[at].arity)] == shared_method(
                    parts.1@[at].method,
                ),
            forall|key: MethodKey| #[trigger]
                self@.methods.contains_key(key) ==> exists|at: int|
                    stands_under(parts.1@, at, key),
            forall|first: int, second: int|
                #![trigger parts.1@[first], parts.1@[second]]
                0 <= first < second < parts.1@.len() ==> !(parts.1@[first].name@
                    == parts.1@[second].name@ && parts.1@[first].arity == parts.1@[second].arity),
    {
        proof {
            use_type_invariant(&self);
        }
        let ghost whole = self;
        let parts = (self.class, self.methods);
        proof {
            assert(parts.1@ == whole.methods@);
            assert forall|at: int| 0 <= at < whole.methods@.len() implies whole.cache().contains_key(
                (#[trigger] whole.methods@[at].name@, whole.methods@[at].arity),
            ) && whole.cache()[(whole.methods@[at].name@, whole.methods@[at].arity)] == shared_method(
                whole.methods@[at].method,
            ) by {
                let key: MethodKey = (whole.methods@[at].name@, whole.methods@[at].arity);
                assert(whole.holds(at, key.0, key.1));
                let chosen = choose|other: int| whole.holds(other, key.0, key.1);
                if chosen < at {
                    assert(!(whole.methods@[chosen].name@ == whole.methods@[at].name@
                        && whole.methods@[chosen].arity == whole.methods@[at].arity));
                } else if at < chosen {
                    assert(!(whole.methods@[at].name@ == whole.methods@[chosen].name@
                        && whole.methods@[at].arity == whole.methods@[chosen].arity));
                }
            }
            assert forall|key: MethodKey| #[trigger]
                whole@.methods.contains_key(key) implies exists|at: int|
                stands_under(parts.1@, at, key) by {
                assert(whole.cache().contains_key(key));
                let at = choose|at: int| whole.holds(at, key.0, key.1);
                assert(whole.holds(at, key.0, key.1));
                assert(stands_under(parts.1@, at, key));
            }
        }
        parts
    }

    /// Looks a key up among the resolved methods.
    fn find(&self, name: &str, arity: i32) -> (found: Option<Rc<Method>>)
        ensures
            (match found {
                Some(method) => self@.methods.contains_key((name@, arity)) && *method
                    == self@.methods[(name@, arity)],
                None => !self@.methods.contains_key((name@, arity)),
            }),
    {
        proof {
            use_type_invariant(self);
        }
        let wanted = name.to_owned();
        let mut at: usize = 0;
        while at < self.methods.len()
            invariant
                self.wf(),
                at <= self.methods@.len(),
                wanted@ == name@,
                forall|before: int| 0 <= before < at ==> !self.holds(before, name@, arity),
            decreases self.methods@.len() - at,
        {
            if self.methods[at].arity == arity && self.methods[at].name == wanted {
                proof {
                    let key: MethodKey = (name@, arity);
                    assert(self.holds(at as int, key.0, key.1));
                    assert(self.cache().contains_key(key));
                    let chosen = choose|other: int| self.holds(other, name@, arity);
                    assert(self.holds(chosen, name@, arity));
                    assert(chosen == at) by {
                        if chosen < at {
                            assert(!(self.methods@[chosen].name@ == self.methods@[at as int].name@
                                && self.methods@[chosen].arity == self.methods@[at as int].arity));
                        } else if chosen > at {
                            assert(!(self.methods@[at as int].name@ == self.methods@[chosen].name@
                                && self.methods@[at as int].arity == self.methods@[chosen].arity));
                        }
                    }
                }
                return Some(self.methods[at].method.clone());
            }
            at = at + 1;
        }
        None
    }

    /// Caches a freshly resolved method under a key that is not cached yet.
    fn remember(&mut self, name: &str, arity: i32, method: Rc<Method>)
        requires
            !old(self)@.methods.contains_key((name@, arity)),
        ensures
            final(self)@ == (TypeModel {
                methods: old(self)@.methods.insert((name@, arity), *method),
                ..old(self)@
            }),
    {
        proof {
            use_type_invariant(&*self);
        }
        let ghost before = *self;
        let ghost resolved = shared_method(method);
        let mut methods: Vec<CachedMethod> = Vec::new();
        std::mem::swap(&mut self.methods, &mut methods);
        methods.push(CachedMethod { name: name.to_owned(), arity, method });
        let ghost after = Type { methods, ..before };
        proof {
            let last = before.methods@.len() as int;
            assert(after.methods@ == before.methods@.push(after.methods@[last]));
            assert forall|at: int, key: MethodKey| before.holds(at, key.0, key.1) implies after.holds(
                at,
                key.0,
                key.1,
            ) by {}
            assert forall|first: int, second: int|
                0 <= first < second < after.methods@.len() implies !(after.methods@[first].name@
                == after.methods@[second].name@ && after.methods@[first].arity
                == after.methods@[second].arity) by {
                if second == last {
                    if after.methods@[first].name@ == name@ && after.methods@[first].arity == arity {
                        let key: MethodKey = (name@, arity);
                        assert(before.holds(first, key.0, key.1));
                        assert(before.cache().contains_key(key));
                    }
                }
            }
            assert(after.wf());
            let wanted = before@.methods.insert((name@, arity), resolved);
            assert forall|key: MethodKey| after.cache().contains_key(key) <==> wanted.contains_key(
                key,
            ) by {
                if after.cache().contains_key(key) {
                    let at = choose|at: int| after.holds(at, key.0, key.1);
                    if at != last {
                        assert(before.holds(at, key.0, key.1));
                    }
                }
                if wanted.contains_key(key) {
                    if key == (name@, arity) {
                        assert(after.holds(last, key.0, key.1));
                    } else {
                        let at = choose|at: int| before.holds(at, key.0, key.1);
                        assert(after.holds(at, key.0, key.1));
                    }
                }
            }
            assert forall|key: MethodKey| after.cache().contains_key(key) implies after.cache()[key]
                == wanted[key] by {
                let at = choose|at: int| after.holds(at, key.0, key.1);
                assert(after.holds(at, key.0, key.1));
                if key == (name@, arity) {
                    if at != last {
                        assert(before.holds(at, key.0, key.1));
                    }
                } else {
                    assert(before.holds(at, key.0, key.1));
                    let old_at = choose|old_at: int| before.holds(old_at, key.0, key.1);
                    assert(before.holds(old_at, key.0, key.1));
                    if old_at < at {
                        assert(!(before.methods@[old_at].name@ == before.methods@[at].name@
                            && before.methods@[old_at].arity == before.methods@[at].arity));
                    } else if at < old_at {
                        assert(!(before.methods@[at].name@ == before.methods@[old_at].name@
                            && before.methods@[at].arity == before.methods@[old_at].arity));
                    }
                }
            }
            assert(after.cache() =~= wanted);
        }
        self.methods = methods;
        assert(*self == after);
    }
}

impl View for Type {
    type V = TypeModel;

    closed spec fn view(&self) -> TypeModel {
        TypeModel {
            name: self.name@,
            class: self.class,
            metadata: self.metadata,
            methods: self.cache(),
        }
    }
}

/// An instance of a registered script type, with the place of its type in
/// the cache.
#[derive(Debug)]
pub struct Script {
    pub index: usize,
    pub instance: Object,
}

impl Script {
    /// The instance itself.
    pub fn as_ref(&self) -> (instance: &Object)
        ensures
            *instance == self.instance,
    {
        &self.instance
    }
}

/// A method bound to an instance, ready to be invoked.
#[derive(Debug)]
pub struct Invokable<'s> {
    pub instance: &'s Object,
    pub method: Rc<Method>,
    pub invoke: usize,
}

impl<'s> Invokable<'s> {
    /// The call that invokes the method on the instance with the arguments
    /// at the addresses `params`, in their order.
    pub fn invoke_with(&self, params: Vec<usize>) -> (call: HostCall)
        ensures
            call == (HostCall::RuntimeInvoke {
                function: self.invoke,
                method: shared_method(self.method).address(),
                instance: self.instance.address(),
                args: params,
            }),
    {
        HostCall::RuntimeInvoke {
            function: self.invoke,
            method: self.method.as_ptr(),
            instance: self.instance.as_ptr(),
            args: params,
        }
    }

    /// The call that invokes the method on the instance with `args`: with
    /// the list that `args` makes of itself, which is empty for `()`, holds
    /// the argument's own address for one argument, and both addresses in
    /// their order for a pair.
    pub fn invoke<P: ManagedParams>(&self, args: P) -> (call: HostCall)
        ensures
            (call matches HostCall::RuntimeInvoke { function, method, instance, args: handed }
                && function == self.invoke
                && method == shared_method(self.method).address()
                && instance == self.instance.address()
                && args.lists(handed@)),
    {
        let handed = args.into_managed_params();
        self.invoke_with(handed)
    }

    /// Reads the reply to an invocation.
    pub fn invoked(&self, reply: HostReply) -> (outcome: Result<()>)
        ensures
            outcome == outcome_of_status(reply.status as int),
    {
        reply.unit()
    }
}

/// Gives up one share of a method. The release call comes back where the
/// share was the last one; while other shares exist the handle stays alive
/// and nothing is to be done.
pub fn release_shared(method: Rc<Method>) -> (call: Option<HostCall>)
    ensures
        call matches Some(release) ==> release == (HostCall::Destroy {
            function: shared_method(method).destroyer(),
            handle: shared_method(method).address(),
        }),
{
    release_unwrapped(Rc::try_unwrap(method))
}

/// What giving up a share asks for, once it is known whether the share was
/// the last one: the method of the last holder is released, and a share that
/// others still hold asks for nothing.
pub open spec fn release_of(unwrapped: std::result::Result<Method, Rc<Method>>) -> Option<HostCall> {
    match unwrapped {
        Ok(last) => Some(HostCall::Destroy { function: last.destroyer(), handle: last.address() }),
        Err(_) => None,
    }
}

/// Concludes the giving up of a share from what became of it: the method
/// itself where the share was the last one, the share where it was not.
pub fn release_unwrapped(unwrapped: std::result::Result<Method, Rc<Method>>) -> (call: Option<
    HostCall,
>)
    ensures
        call == release_of(unwrapped),
{
    match unwrapped {
        Ok(last) => Some(last.release()),
        Err(_) => None,
    }
}

/// What the cache says of a method before the managed side is asked.
#[derive(Debug)]
pub enum MethodLookup<'s> {
    /// The method was resolved before; no call is needed.
    Cached(Invokable<'s>),
    /// The method is not cached; the managed side has to be asked with this
    /// call, and its reply handed to `cache_method`.
    Query(HostCall),
    /// The instance belongs to no registered type.
    Unregistered,
}

/// What a concluded lookup gives: the method bound to the instance, where
/// the class has it, and a handle that was resolved in vain, to be released.
#[derive(Debug)]
pub struct Resolved<'s> {
    pub invokable: Option<Invokable<'s>>,
    pub spare: Option<Method>,
}

/// A script that `create` found registered: the place of its type, and the
/// call that constructs the instance.
#[derive(Debug)]
pub struct PendingScript {
    pub index: usize,
    pub call: HostCall,
}

/// What `clear` took out of the runtime: the scope to unload and the types
/// whose handles are to be released.
#[derive(Debug)]
pub struct Purged {
    pub scope: Option<Scope>,
    pub types: Vec<Type>,
}

/// The reflection cache proper: the registered types in the order of their
/// registration, and the place of each logical name among them.
pub struct ScriptTypes {
    fullname_to_script: StringHashMap<usize>,
    scripts: Vec<Type>,
}

impl View for ScriptTypes {
    type V = Registry;

    closed spec fn view(&self) -> Registry {
        Registry {
            types: self.scripts@.map_values(|registered: Type| registered@),
            index: self.fullname_to_script@,
        }
    }
}

impl ScriptTypes {
    /// Every name leads to a type of that name, and every type is found at
    /// the place that its name leads to.
    #[verifier::type_invariant]
    spec fn wf(&self) -> bool {
        self@.consistent()
    }

    pub(crate) fn new() -> (types: ScriptTypes)
        ensures
            types@ == Registry::empty(),
    {
        let fullname_to_script = StringHashMap::new();
        let scripts: Vec<Type> = Vec::new();
        assert(scripts@.map_values(|registered: Type| registered@) =~= Seq::<TypeModel>::empty());
        ScriptTypes { fullname_to_script, scripts }
    }

    /// The number of registered types.
    pub fn len(&self) -> (count: usize)
        ensures
            count == self@.types.len(),
    {
        self.scripts.len()
    }

    /// The place that a logical name leads to.
    pub fn lookup(&self, name: &str) -> (found: Option<usize>)
        ensures
            (match found {
                Some(place) => self@.index.contains_key(name@) && self@.index[name@] == place
                    && place < self@.types.len() && self@.types[place as int].name == name@,
                None => !self@.index.contains_key(name@),
            }),
    {
        proof {
            use_type_invariant(self);
        }
        match self.fullname_to_script.get(name) {
            Some(place) => {
                assert(self@.index.contains_key(name@));
                Some(*place)
            },
            None => None,
        }
    }

    /// The type registered at a place.
    pub fn get(&self, place: usize) -> (registered: &Type)
        requires
            place < self@.types.len(),
        ensures
            registered@ == self@.types[place as int],
    {
        assert(self.scripts@[place as int]@ == self@.types[place as int]);
        &self.scripts[place]
    }

    pub(crate) fn push(&mut self, name: &str, class: Class, metadata: MetaData) -> (back: Option<
        Class,
    >)
        ensures
            final(self)@ == old(self)@.register(name@, class, metadata),
            back == (if old(self)@.index.contains_key(name@) {
                Some(class)
            } else {
                None
            }),
    {
        proof {
            use_type_invariant(&*self);
        }
        if self.fullname_to_script.contains_key(name) {
            return Some(class);
        }
        let ghost before = self@;
        let mut taken = ScriptTypes::new();
        std::mem::swap(self, &mut taken);
        let ScriptTypes { fullname_to_script, scripts } = taken;
        let mut fullname_to_script = fullname_to_script;
        let mut scripts = scripts;
        let index = scripts.len();
        fullname_to_script.insert(name.to_owned(), index);
        scripts.push(Type::new(name.to_owned(), class, metadata));
        proof {
            assert(scripts@.map_values(|registered: Type| registered@) =~= before.register(
                name@,
                class,
                metadata,
            ).types);
            Registry::registering_keeps_consistency(before, name@, class, metadata);
        }
        *self = ScriptTypes { fullname_to_script, scripts };
        None
    }

    pub(crate) fn remember(&mut self, place: usize, name: &str, arity: i32, method: Rc<Method>)
        requires
            place < old(self)@.types.len(),
            old(self)@.cached(place as int, name@, arity).is_none(),
        ensures
            final(self)@ == old(self)@.remember(place as int, name@, arity, shared_method(method)),
    {
        proof {
            use_type_invariant(&*self);
        }
        let ghost before = self@;
        let ghost resolved = shared_method(method);
        let mut taken = ScriptTypes::new();
        std::mem::swap(self, &mut taken);
        let ScriptTypes { fullname_to_script, scripts } = taken;
        let mut scripts = scripts;
        let ghost held = scripts@;
        assert(held[place as int]@ == before.types[place as int]);
        scripts[place].remember(name, arity, method);
        proof {
            assert(scripts@.map_values(|registered: Type| registered@) =~= before.remember(
                place as int,
                name@,
                arity,
                resolved,
            ).types) by {
                assert forall|at: int| 0 <= at < scripts@.len() implies scripts@[at]@
                    == before.remember(place as int, name@, arity, resolved).types[at] by {
                    if at != place {
                        assert(scripts@[at] == held[at]);
                        assert(held[at]@ == before.types[at]);
                    }
                }
            }
            Registry::remembering_keeps_consistency(before, place as int, name@, arity, resolved);
        }
        *self = ScriptTypes { fullname_to_script, scripts };
    }

    pub(crate) fn take(&mut self) -> (types: Vec<Type>)
        ensures
            final(self)@ == Registry::empty(),
            types@.map_values(|registered: Type| registered@) == old(self)@.types,
    {
        let mut taken = ScriptTypes::new();
        std::mem::swap(self, &mut taken);
        let ScriptTypes { fullname_to_script, scripts } = taken;
        scripts
    }
}

/// The hosting state: the host function table, the current scope, the loaded
/// modules and the reflection cache.
pub struct Runtime {
    pub paths: Paths,
    pub versions: Versions,
    pub library: RuntimeLibrary,
    pub scope: Option<Scope>,
    pub assemblies: Assemblies,
    pub scripts: ScriptTypes,
}

impl View for Runtime {
    type V = Registry;

    open spec fn view(&self) -> Registry {
        self.scripts@
    }
}

impl Runtime {
    /// A runtime with no scope, no module and nothing registered.
    pub fn new(paths: Paths, versions: Versions, library: RuntimeLibrary) -> (runtime: Runtime)
        ensures
            runtime@ == Registry::empty(),
            runtime.paths == paths,
            runtime.versions == versions,
            runtime.library == library,
            runtime.scope.is_none(),
            forall|assembly: AssemblyType| runtime.assemblies.loaded(assembly).is_none(),
    {
        Runtime {
            paths,
            versions,
            library,
            scope: None,
            assemblies: Assemblies::new(),
            scripts: ScriptTypes::new(),
        }
    }

    /// Begins the creation of an instance of the script registered as `name`:
    /// `ClassNotRegistered` where no script is, else the call that
    /// constructs an instance of its class.
    pub fn create(&self, name: &str) -> (outcome: Result<PendingScript>)
        ensures
            !self@.index.contains_key(name@) ==> outcome == Err::<PendingScript, Error>(
                Error::ClassNotRegistered,
            ),
            self@.index.contains_key(name@) ==> (outcome matches Ok(pending) && pending.index
                == self@.index[name@] && pending.index < self@.types.len()
                && self@.types[pending.index as int].name == name@ && pending.call == (
            HostCall::New {
                function: self.library.address_of(HostFunction::New),
                class: self@.types[pending.index as int].class.address(),
            })),
    {
        match self.scripts.lookup(name) {
            Some(index) => Ok(
                PendingScript {
                    index,
                    call: self.library.new_object(self.scripts.get(index).class()),
                },
            ),
            None => Err(Error::ClassNotRegistered),
        }
    }

    /// Concludes the creation of an instance from the reply to the call that
    /// `create` gave: a status error as it is named, `UnknownManaged` where
    /// the managed side sent no instance, else the script.
    pub fn created(&self, index: usize, reply: HostReply) -> (outcome: Result<Script>)
        ensures
            (match handle_of_reply(reply) {
                Err(error) => outcome == Err::<Script, Error>(error),
                Ok(None) => outcome == Err::<Script, Error>(Error::UnknownManaged),
                Ok(Some(address)) => outcome matches Ok(script) && script.index == index
                    && script.instance.address() == address && script.instance.functions()
                    == self.library.object_functions(),
            }),
    {
        match self.library.object_from(reply) {
            Err(error) => Err(error),
            Ok(None) => Err(Error::UnknownManaged),
            Ok(Some(instance)) => Ok(Script { index, instance }),
        }
    }

    /// Begins the registration of the script class `name`:
    /// `AssemblyNotLoaded` where the scripts module was never loaded. A name
    /// is registered once: for a name that is registered there is nothing to
    /// do. For any other name the call comes back that looks the class up in
    /// the scripts module.
    pub fn register(&self, name: &str) -> (outcome: Result<Option<HostCall>>)
        ensures
            self.assemblies.loaded(AssemblyType::Scripts).is_none() ==> outcome == Err::<
                Option<HostCall>,
                Error,
            >(Error::AssemblyNotLoaded),
            self.assemblies.loaded(AssemblyType::Scripts).is_some() && self@.index.contains_key(
                name@,
            ) ==> outcome == Ok::<Option<HostCall>, Error>(None),
            (self.assemblies.loaded(AssemblyType::Scripts) matches Some(module)
                && !self@.index.contains_key(name@)) ==> (outcome matches Ok(
                Some(HostCall::GetClass { function, assembly, name: passed }),
            ) && function == self.library.address_of(HostFunction::GetClass) && assembly
                == self.assemblies.loaded(AssemblyType::Scripts).unwrap().address() && passed@
                == nul_terminated_text(name@)),
    {
        match self.assemblies.get(AssemblyType::Scripts) {
            None => Err(Error::AssemblyNotLoaded),
            Some(module) => match self.scripts.lookup(name) {
                Some(_) => Ok(None),
                None => Ok(Some(self.library.get_class(module, name))),
            },
        }
    }

    /// Continues a registration with the reply to the class lookup: a status
    /// error as it is named, `ClassNotFound` where the module has no such
    /// class, else the class and the call that asks for its description.
    pub fn describe(&self, reply: HostReply) -> (outcome: Result<(Class, HostCall)>)
        ensures
            (match handle_of_reply(reply) {
                Err(error) => outcome == Err::<(Class, HostCall), Error>(error),
                Ok(None) => outcome == Err::<(Class, HostCall), Error>(Error::ClassNotFound),
                Ok(Some(address)) => outcome matches Ok((class, call)) && class.address()
                    == address && class.destroyer() == self.library.address_of(
                    HostFunction::Destroy,
                ) && call == (HostCall::GetMetaData {
                    function: self.library.address_of(HostFunction::GetMetaData),
                    class: address,
                }),
            }),
    {
        match self.library.class_from(reply) {
            Err(error) => Err(error),
            Ok(None) => Err(Error::ClassNotFound),
            Ok(Some(class)) => {
                let call = self.library.get_meta_data(&class);
                Ok((class, call))
            },
        }
    }

    /// Concludes a registration: appends the type, with no method resolved,
    /// and lets `name` lead to it. A name is registered once: where `name`
    /// is registered already the cache stays as it is and the class comes
    /// back, to be released.
    pub fn enroll(&mut self, name: &str, class: Class, metadata: MetaData) -> (back: Option<Class>)
        ensures
            final(self)@ == old(self)@.register(name@, class, metadata),
            back == (if old(self)@.index.contains_key(name@) {
                Some(class)
            } else {
                None
            }),
            final(self).paths == old(self).paths,
            final(self).versions == old(self).versions,
            final(self).library == old(self).library,
            final(self).scope == old(self).scope,
            final(self).assemblies == old(self).assemblies,
    {
        self.scripts.push(name, class, metadata)
    }

    /// Begins the loading of a module: nothing to do without a scope, else
    /// the call that loads the module's file into the scope.
    pub fn load(&self, assembly: AssemblyType) -> (call: Option<HostCall>)
        ensures
            self.scope.is_none() ==> call.is_none(),
            self.scope matches Some(scope) ==> call matches Some(
                HostCall::LoadFromPath { function, scope: context, path },
            ) && function == self.library.address_of(HostFunction::LoadFromPath) && context
                == scope.address() && path@ == nul_terminated_text(
                assembly_path(assembly, self.paths.exe@),
            ),
    {
        match &self.scope {
            None => None,
            Some(scope) => {
                let file = assembly.path(self.paths.exe.as_str());
                Some(self.library.load_from_path(scope, file.as_str()))
            },
        }
    }

    /// Concludes the loading of a module from the reply: a status error as
    /// it is named, `PathNotFound` where the managed side loaded nothing,
    /// else the module is recorded.
    pub fn loaded(&mut self, assembly: AssemblyType, reply: HostReply) -> (outcome: Result<()>)
        ensures
            final(self)@ == old(self)@,
            final(self).paths == old(self).paths,
            final(self).versions == old(self).versions,
            final(self).library == old(self).library,
            final(self).scope == old(self).scope,
            (match handle_of_reply(reply) {
                Err(error) => outcome == Err::<(), Error>(error) && final(self).assemblies == old(self).assemblies,
                Ok(None) => outcome == Err::<(), Error>(Error::PathNotFound) && final(self).assemblies == old(self).assemblies,
                Ok(Some(address)) => outcome.is_ok() && (final(self).assemblies.loaded(
                    assembly,
                ) matches Some(module) && module.address() == address) && forall|
                    other: AssemblyType,
                |
                    other != assembly ==> final(self).assemblies.loaded(other) == old(self).assemblies.loaded(other),
            }),
    {
        match self.library.assembly_from(reply) {
            Err(error) => Err(error),
            Ok(None) => Err(Error::PathNotFound),
            Ok(Some(module)) => {
                self.assemblies.insert(assembly, module);
                Ok(())
            },
        }
    }

    /// Swaps in a fresh scope and purges the cache: every registered type,
    /// every cached method and every module is forgotten. What comes back is
    /// all that was held: the old scope, to be unloaded, and the types, to be
    /// released.
    pub fn clear(&mut self, fresh: Scope) -> (purged: Purged)
        ensures
            final(self)@ == Registry::empty(),
            final(self).scope == Some(fresh),
            forall|assembly: AssemblyType| final(self).assemblies.loaded(assembly).is_none(),
            final(self).paths == old(self).paths,
            final(self).versions == old(self).versions,
            final(self).library == old(self).library,
            purged.scope == old(self).scope,
            purged.types@.map_values(|registered: Type| registered@) == old(self)@.types,
    {
        let types = self.scripts.take();
        self.assemblies.clear();
        let mut scope = Some(fresh);
        std::mem::swap(&mut self.scope, &mut scope);
        Purged { scope, types }
    }

    /// Lets go of everything at the end: the scope, the modules and the
    /// cache. What comes back is all that was held: the scope, to be
    /// unloaded, and the types, to be released.
    pub fn close(&mut self) -> (purged: Purged)
        ensures
            final(self)@ == Registry::empty(),
            final(self).scope.is_none(),
            forall|assembly: AssemblyType| final(self).assemblies.loaded(assembly).is_none(),
            final(self).paths == old(self).paths,
            final(self).versions == old(self).versions,
            final(self).library == old(self).library,
            purged.scope == old(self).scope,
            purged.types@.map_values(|registered: Type| registered@) == old(self)@.types,
    {
        let types = self.scripts.take();
        self.assemblies.clear();
        let mut scope = None;
        std::mem::swap(&mut self.scope, &mut scope);
        Purged { scope, types }
    }

    /// Reads the reply to the unloading of a purged scope: every status but
    /// zero is surfaced as an error, none is ignored.
    pub fn cleared(&self, reply: HostReply) -> (outcome: Result<()>)
        ensures
            outcome == unload_outcome(reply.status as int),
    {
        reply.unloaded()
    }

    /// Whether the instance belongs to a type that is registered now.
    pub fn knows(&self, handle: &Script) -> (known: bool)
        ensures
            known == (handle.index < self@.types.len()),
    {
        handle.index < self.scripts.len()
    }

    /// Looks up the method `name` with `args` parameters for an instance. A
    /// cached method comes back bound to the instance, with no call to the
    /// managed side; a method not cached yet comes back as the call that
    /// resolves it.
    pub fn get_method<'s>(&self, handle: &'s Script, name: &str, args: i32) -> (lookup:
        MethodLookup<'s>)
        ensures
            handle.index >= self@.types.len() ==> lookup is Unregistered,
            (handle.index < self@.types.len() ==> match self@.cached(
                handle.index as int,
                name@,
                args,
            ) {
                Some(method) => lookup matches MethodLookup::Cached(invokable)
                    && shared_method(invokable.method) == method && *invokable.instance
                    == handle.instance && invokable.invoke == self.library.address_of(
                    HostFunction::RuntimeInvoke,
                ),
                None => lookup matches MethodLookup::Query(
                    HostCall::GetMethod { function, class, name: passed, arity },
                ) && function == self.library.address_of(HostFunction::GetMethod) && class
                    == self@.types[handle.index as int].class.address() && passed@
                    == nul_terminated_text(name@) && arity == args,
            }),
    {
        if handle.index < self.scripts.len() {
            let script = self.scripts.get(handle.index);
            match script.find(name, args) {
                Some(method) => MethodLookup::Cached(
                    Invokable {
                        instance: &handle.instance,
                        method,
                        invoke: self.library.function(HostFunction::RuntimeInvoke),
                    },
                ),
                None => MethodLookup::Query(self.library.get_method(script.class(), name, args)),
            }
        } else {
            MethodLookup::Unregistered
        }
    }

    /// Concludes a lookup with the reply to the call that `get_method` gave.
    /// A reply without a method is not an error: whether the managed side
    /// says so with the status of a method not found or with a null pointer,
    /// the class has no such method, nothing comes back and the cache stays
    /// as it was. Any other status error comes back as it is named. A
    /// resolved method is cached under its key and comes back bound to the
    /// instance. A key has one method: where the key has been cached since
    /// the lookup began, the cached method comes back bound and the fresh
    /// handle comes back as spare; where the type of the instance is not
    /// registered, nothing is bound and the fresh handle is spare. In both
    /// cases the cache stays as it is.
    pub fn cache_method<'s>(
        &mut self,
        handle: &'s Script,
        name: &str,
        args: i32,
        reply: HostReply,
    ) -> (outcome: Result<Resolved<'s>>)
        ensures
            final(self).paths == old(self).paths,
            final(self).versions == old(self).versions,
            final(self).library == old(self).library,
            final(self).scope == old(self).scope,
            final(self).assemblies == old(self).assemblies,
            (match method_of_reply(reply) {
                Err(error) => outcome == Err::<Resolved<'s>, Error>(error) && final(self)@ == old(self)@,
                Ok(None) => outcome matches Ok(resolved) && resolved.invokable.is_none()
                    && resolved.spare.is_none() && final(self)@ == old(self)@,
                Ok(Some(address)) => outcome matches Ok(resolved) && (if handle.index >= old(self)@.types.len() {
                    &&& resolved.invokable.is_none()
                    &&& resolved.spare matches Some(spare)
                    &&& spare.address() == address
                    &&& spare.destroyer() == old(self).library.address_of(HostFunction::Destroy)
                    &&& final(self)@ == old(self)@
                } else {
                    &&& resolved.invokable matches Some(invokable)
                    &&& *invokable.instance == handle.instance
                    &&& invokable.invoke == old(self).library.address_of(HostFunction::RuntimeInvoke)
                    &&& match old(self)@.cached(handle.index as int, name@, args) {
                        Some(cached) => {
                            &&& shared_method(invokable.method) == cached
                            &&& resolved.spare matches Some(spare)
                            &&& spare.address() == address
                            &&& spare.destroyer() == old(self).library.address_of(
                                HostFunction::Destroy,
                            )
                            &&& final(self)@ == old(self)@
                        },
                        None => {
                            &&& shared_method(invokable.method).address() == address
                            &&& shared_method(invokable.method).destroyer() == old(self).library.address_of(HostFunction::Destroy)
                            &&& resolved.spare.is_none()
                            &&& final(self)@ == old(self)@.remember(
                                handle.index as int,
                                name@,
                                args,
                                shared_method(invokable.method),
                            )
                        },
                    }
                }),
            }),
    {
        match self.library.method_from(reply) {
            Err(Error::MethodNotFound) => Ok(Resolved { invokable: None, spare: None }),
            Err(error) => Err(error),
            Ok(None) => Ok(Resolved { invokable: None, spare: None }),
            Ok(Some(fresh)) => {
                if handle.index >= self.scripts.len() {
                    return Ok(Resolved { invokable: None, spare: Some(fresh) });
                }
                let invoke = self.library.function(HostFunction::RuntimeInvoke);
                match self.scripts.get(handle.index).find(name, args) {
                    Some(cached) => Ok(
                        Resolved {
                            invokable: Some(
                                Invokable { instance: &handle.instance, method: cached, invoke },
                            ),
                            spare: Some(fresh),
                        },
                    ),
                    None => {
                        let method = Rc::new(fresh);
                        self.scripts.remember(handle.index, name, args, method.clone());
                        Ok(
                            Resolved {
                                invokable: Some(
                                    Invokable { instance: &handle.instance, method, invoke },
                                ),
                                spare: None,
                            },
                        )
                    },
                }
            },
        }
    }

    /// The description of the type of an instance, as it was fetched when
    /// the type was registered.
    pub fn get_meta_data(&self, handle: &Script) -> (metadata: &MetaData)
        requires
            handle.index < self@.types.len(),
        ensures
            *metadata == self@.types[handle.index as int].metadata,
    {
        self.scripts.get(handle.index).metadata()
    }

    /// The runtime configuration beside the executable.
    pub fn get_config_path(&self) -> (path: &str)
        ensures
            path@ == self.paths.config@,
    {
        self.paths.config.as_str()
    }

    /// The bridge assembly beside the executable.
    pub fn get_dll_path(&self) -> (path: &str)
        ensures
            path@ == self.paths.dll@,
    {
        self.paths.dll.as_str()
    }

    /// The install root of the runtime.
    pub fn get_dotnet_path(&self) -> (path: &str)
        ensures
            path@ == self.paths.dotnet@,
    {
        self.paths.dotnet.as_str()
    }

    /// The hosting shim.
    pub fn get_hostfxr_path(&self) -> (path: &str)
        ensures
            path@ == self.paths.hostfxr@,
    {
        self.paths.hostfxr.as_str()
    }

    /// The directory of the managed sources.
    pub fn get_managed_path(&self) -> (path: &str)
        ensures
            path@ == self.paths.managed@,
    {
        self.paths.managed.as_str()
    }

    /// The framework version that is hosted.
    pub fn get_framework_version(&self) -> (version: &str)
        ensures
            version@ == self.versions.framework@,
    {
        self.versions.framework.as_str()
    }

    /// The target that the framework version belongs to.
    pub fn get_net_version(&self) -> (version: &str)
        ensures
            version@ == self.versions.net@,
    {
        self.versions.net.as_str()
    }
}

impl Registry {
    /// Registering a type keeps the cache consistent.
    pub proof fn registering_keeps_consistency(
        before: Registry,
        name: Seq<char>,
        class: Class,
        metadata: MetaData,
    )
        requires
            before.consistent(),
            before.types.len() <= usize::MAX,
        ensures
            before.register(name, class, metadata).consistent(),
    {
        let after = before.register(name, class, metadata);
        if !before.index.contains_key(name) {
            assert forall|other: Seq<char>| #[trigger]
                after.index.contains_key(other) implies after.index[other] < after.types.len()
                && after.types[after.index[other] as int].name == other by {
                if other != name {
                    assert(before.index.contains_key(other));
                }
            }
            assert forall|place: int| 0 <= place < after.types.len() implies after.index.contains_key(
                #[trigger] after.types[place].name,
            ) && after.index[after.types[place].name] == place by {
                if place < before.types.len() {
                    assert(before.index.contains_key(before.types[place].name));
                }
            }
        }
    }

    /// Caching a method keeps the cache consistent.
    pub proof fn remembering_keeps_consistency(
        before: Registry,
        place: int,
        name: Seq<char>,
        arity: i32,
        method: Method,
    )
        requires
            before.consistent(),
            0 <= place < before.types.len(),
        ensures
            before.remember(place, name, arity, method).consistent(),
    {
        let after = before.remember(place, name, arity, method);
        assert forall|other: Seq<char>| #[trigger] after.index.contains_key(other) implies after.index[other]
            < after.types.len() && after.types[after.index[other] as int].name == other by {
            assert(before.index.contains_key(other));
        }
        assert forall|at: int| 0 <= at < after.types.len() implies after.index.contains_key(
            #[trigger] after.types[at].name,
        ) && after.index[after.types[at].name] == at by {
            assert(before.index.contains_key(before.types[at].name));
        }
    }

    /// A name is registered once: in a consistent cache no two types carry
    /// one name.
    pub proof fn one_type_for_each_name(cache: Registry, first: int, second: int)
        requires
            cache.consistent(),
            0 <= first < cache.types.len(),
            0 <= second < cache.types.len(),
            cache.types[first].name == cache.types[second].name,
        ensures
            first == second,
    {
        assert(cache.index.contains_key(cache.types[first].name));
        assert(cache.index.contains_key(cache.types[second].name));
    }

    /// Registering a name anew changes nothing: the cache, and with it every
    /// type, every name and every cached method, stays as it is.
    pub proof fn registering_again_changes_nothing(
        before: Registry,
        name: Seq<char>,
        first: (Class, MetaData),
        second: (Class, MetaData),
    )
        requires
            before.types.len() <= usize::MAX,
        ensures
            before.register(name, first.0, first.1).register(name, second.0, second.1)
                == before.register(name, first.0, first.1),
    {
    }
}

impl Registry {
    /// A resolved method is found again under its key, as the method that
    /// was resolved, and no other key is touched by it: not the same name
    /// with another arity, not another name, not another type. The types,
    /// their classes, their descriptions and their names stay as they are.
    pub proof fn resolved_method_is_found_again(
        before: Registry,
        place: int,
        name: Seq<char>,
        arity: i32,
        method: Method,
    )
        requires
            0 <= place < before.types.len(),
        ensures
            before.remember(place, name, arity, method).cached(place, name, arity) == Some(method),
            forall|other_place: int, other_name: Seq<char>, other_arity: i32|
                !(other_place == place && other_name == name && other_arity == arity)
                    ==> #[trigger] before.remember(place, name, arity, method).cached(
                    other_place,
                    other_name,
                    other_arity,
                ) == before.cached(other_place, other_name, other_arity),
            before.remember(place, name, arity, method).index == before.index,
            before.remember(place, name, arity, method).types.len() == before.types.len(),
            (forall|at: int|
                0 <= at < before.types.len() ==> {
                    let kept = #[trigger] before.remember(place, name, arity, method).types[at];
                    &&& kept.name == before.types[at].name
                    &&& kept.class == before.types[at].class
                    &&& kept.metadata == before.types[at].metadata
                }),
    {
        let after = before.remember(place, name, arity, method);
        assert forall|other_place: int, other_name: Seq<char>, other_arity: i32|
            !(other_place == place && other_name == name && other_arity == arity)
                implies #[trigger] after.cached(other_place, other_name, other_arity)
            == before.cached(other_place, other_name, other_arity) by {
            if 0 <= other_place < before.types.len() && other_place == place {
                assert((other_name, other_arity) != (name, arity));
            }
        }
    }

    /// A registered name is found. Where it was not registered before, it
    /// leads to the type that was registered under it, with no method
    /// cached; where it was, the cache stays as it is. Either way what was
    /// registered before stays as it was, and every other name is found
    /// exactly where it was found before.
    pub proof fn registered_name_is_found(
        before: Registry,
        name: Seq<char>,
        class: Class,
        metadata: MetaData,
    )
        requires
            before.types.len() <= usize::MAX,
        ensures
            before.register(name, class, metadata).index.contains_key(name),
            before.index.contains_key(name) ==> before.register(name, class, metadata) == before,
            (!before.index.contains_key(name) ==> {
                let after = before.register(name, class, metadata);
                &&& after.types.len() == before.types.len() + 1
                &&& after.index[name] == before.types.len()
                &&& after.types[before.types.len() as int] == (TypeModel {
                    name,
                    class,
                    metadata,
                    methods: Map::<MethodKey, Method>::empty(),
                })
                &&& forall|other: Seq<char>, arity: i32|
                    (#[trigger] after.cached(before.types.len() as int, other, arity)).is_none()
            }),
            forall|at: int|
                0 <= at < before.types.len() ==> #[trigger] before.register(
                    name,
                    class,
                    metadata,
                ).types[at] == before.types[at],
            forall|other: Seq<char>|
                other != name ==> (#[trigger] before.register(
                    name,
                    class,
                    metadata,
                ).index.contains_key(other) == before.index.contains_key(other)) && (
                before.index.contains_key(other) ==> before.register(
                    name,
                    class,
                    metadata,
                ).index[other] == before.index[other]),
    {
    }

    /// Where nothing is registered, no name is found and no method is
    /// cached: after a purge, nothing that was resolved before can be had
    /// without registering anew.
    pub proof fn nothing_is_found_when_empty()
        ensures
            Registry::empty().consistent(),
            Registry::empty().types.len() == 0,
            forall|name: Seq<char>| !(#[trigger] Registry::empty().index.contains_key(name)),
            forall|place: int, name: Seq<char>, arity: i32|
                (#[trigger] Registry::empty().cached(place, name, arity)).is_none(),
    {
    }
}

} // verus!
