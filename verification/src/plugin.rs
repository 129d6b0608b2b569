//! What it takes to wire the bridge into an application: which project
//! files are written, which sources are scripts, and what they are
//! registered as.

use vstd::prelude::*;
use vstd::string::StringExecFns;

use crate::path::{components, components_of, file_stem, file_stem_of, join, joined};
use crate::project::{
    engine_csproj_text, format_engine_csproj, format_scripts_csproj, scripts_csproj_text,
};
use crate::runtime::{assembly_name, AssemblyType};

verus! {

/// The directory of a module's sources below the managed directory.
pub open spec fn source_directory(assembly: AssemblyType) -> Seq<char> {
    match assembly {
        AssemblyType::Engine => "engine"@,
        AssemblyType::Scripts => "scripts"@,
    }
}

/// The project file of a module: `<directory>/<Name>.csproj` below the
/// managed directory.
pub open spec fn project_path(managed: Seq<char>, assembly: AssemblyType) -> Seq<char> {
    joined(joined(managed, source_directory(assembly)), assembly_name(assembly) + ".csproj"@)
}

/// The class that a script source file is registered as: the stem of its
/// name, and none for a file that has a component named like the target,
/// which is what a build left behind.
pub open spec fn script_class(path: Seq<char>, net: Seq<char>) -> Option<Seq<char>> {
    if components_of(path).contains(net) {
        None
    } else {
        file_stem_of(path)
    }
}

/// The plan by which the bridge is wired into an application.
#[derive(Clone, Copy, Debug, Default)]
pub struct CSharpPlugin;

impl CSharpPlugin {
    /// The pattern that finds the script sources.
    pub fn sources(&self) -> (pattern: &'static str)
        ensures
            pattern@ == "assets/scripts/**/*.cs"@,
    {
        "assets/scripts/**/*.cs"
    }

    /// The project file of a module below the managed directory.
    pub fn project_file(&self, managed: &str, assembly: AssemblyType) -> (path: String)
        ensures
            path@ == project_path(managed@, assembly),
    {
        let directory = match assembly {
            AssemblyType::Engine => join(managed, "engine"),
            AssemblyType::Scripts => join(managed, "scripts"),
        };
        let file = String::from_str(assembly.name()).concat(".csproj");
        join(directory.as_str(), file.as_str())
    }

    /// What is written into the project file of a module.
    pub fn project_text(&self, assembly: AssemblyType, net: &str, framework: &str) -> (text: String)
        ensures
            text@ == (match assembly {
                AssemblyType::Engine => engine_csproj_text(net@, framework@),
                AssemblyType::Scripts => scripts_csproj_text(net@, framework@),
            }),
    {
        match assembly {
            AssemblyType::Engine => format_engine_csproj(net, framework),
            AssemblyType::Scripts => format_scripts_csproj(net, framework),
        }
    }

    /// The class that a script source file is registered as, if it is
    /// registered at all.
    pub fn script_class(&self, path: &str, net: &str) -> (class: Option<String>)
        ensures
            (match class {
                Some(name) => script_class(path@, net@) == Some(name@),
                None => script_class(path@, net@).is_none(),
            }),
    {
        let parts = components(path);
        let target = net.to_owned();
        let mut at: usize = 0;
        while at < parts.len()
            invariant
                at <= parts@.len(),
                target@ == net@,
                crate::path::texts(parts@) == components_of(path@),
                forall|before: int| 0 <= before < at ==> components_of(path@)[before] != net@,
            decreases parts@.len() - at,
        {
            assert(crate::path::texts(parts@)[at as int] == parts@[at as int]@);
            if parts[at] == target {
                assert(components_of(path@).contains(net@));
                return None;
            }
            at = at + 1;
        }
        assert(!components_of(path@).contains(net@));
        file_stem(path)
    }
}

} // verus!
