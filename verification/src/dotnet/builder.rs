//! How a managed project is built.

use vstd::prelude::*;
use vstd::string::StringExecFns;

use crate::path::{file_stem, file_stem_of, join, joined, parent, parent_of};

verus! {

/// What a project file says of the project: its property groups, each a list
/// of named properties in which every name occurs once.
#[derive(Debug)]
pub struct Project {
    property_group: Vec<Vec<(String, String)>>,
}

/// The value of the first property of a group that goes by a name.
pub open spec fn property_of(group: Seq<(String, String)>, name: Seq<char>) -> Option<Seq<char>>
    decreases group.len(),
{
    if group.len() == 0 {
        None
    } else if group[0].0@ == name {
        Some(group[0].1@)
    } else {
        property_of(group.skip(1), name)
    }
}

/// Whether a list of properties names each of them once.
pub open spec fn names_once(group: Seq<(String, String)>) -> bool {
    forall|first: int, second: int|
        #![trigger group[first], group[second]]
        0 <= first < second < group.len() ==> group[first].0@ != group[second].0@
}

/// In a group that names each property once, the value of a property is
/// that of the one entry of its name, wherever in the group it stands.
pub proof fn property_is_the_entry_of_its_name(
    group: Seq<(String, String)>,
    name: Seq<char>,
    at: int,
)
    requires
        names_once(group),
        0 <= at < group.len(),
        group[at].0@ == name,
    ensures
        property_of(group, name) == Some(group[at].1@),
    decreases group.len(),
{
    if at > 0 {
        let rest = group.skip(1);
        assert(group[0].0@ != group[at].0@);
        assert forall|first: int, second: int|
            #![trigger rest[first], rest[second]]
            0 <= first < second < rest.len() implies rest[first].0@ != rest[second].0@ by {
            assert(group[first + 1].0@ != group[second + 1].0@);
        }
        property_is_the_entry_of_its_name(rest, name, at - 1);
    }
}

/// The value that the first group which has a property of a name gives it.
pub open spec fn first_property(groups: Seq<Vec<(String, String)>>, name: Seq<char>) -> Option<
    Seq<char>,
>
    decreases groups.len(),
{
    if groups.len() == 0 {
        None
    } else {
        match property_of(groups[0]@, name) {
            Some(value) => Some(value),
            None => first_property(groups.skip(1), name),
        }
    }
}

fn property<'a>(group: &'a Vec<(String, String)>, name: &str) -> (value: Option<&'a String>)
    ensures
        (match value {
            Some(text) => property_of(group@, name@) == Some(text@),
            None => property_of(group@, name@).is_none(),
        }),
{
    let wanted = name.to_owned();
    let mut at: usize = 0;
    assert(group@.skip(0) =~= group@);
    while at < group.len()
        invariant
            at <= group@.len(),
            wanted@ == name@,
            property_of(group@, name@) == property_of(group@.skip(at as int), name@),
        decreases group@.len() - at,
    {
        assert(group@.skip(at as int).skip(1) =~= group@.skip(at + 1));
        if group[at].0 == wanted {
            return Some(&group[at].1);
        }
        at = at + 1;
    }
    None
}

/// Whether every group of a list names each of its properties once.
pub open spec fn all_named_once(groups: Seq<Vec<(String, String)>>) -> bool {
    forall|at: int| 0 <= at < groups.len() ==> names_once(#[trigger] groups[at]@)
}

/// Tells whether a group names each of its properties once.
fn named_once(group: &Vec<(String, String)>) -> (once: bool)
    ensures
        once == names_once(group@),
{
    let mut second: usize = 0;
    while second < group.len()
        invariant
            second <= group@.len(),
            forall|earlier: int, later: int|
                #![trigger group@[earlier], group@[later]]
                0 <= earlier < later < second ==> group@[earlier].0@ != group@[later].0@,
        decreases group@.len() - second,
    {
        let mut first: usize = 0;
        while first < second
            invariant
                first <= second < group@.len(),
                forall|earlier: int|
                    0 <= earlier < first ==> (#[trigger] group@[earlier]).0@ != group@[second as int].0@,
            decreases second - first,
        {
            if group[first].0 == group[second].0 {
                assert(!(group@[first as int].0@ != group@[second as int].0@));
                return false;
            }
            first = first + 1;
        }
        second = second + 1;
    }
    true
}

impl Project {
    /// Every group names each of its properties once.
    #[verifier::type_invariant]
    spec fn wf(&self) -> bool {
        all_named_once(self.property_group@)
    }

    /// The property groups of the project.
    pub closed spec fn groups(&self) -> Seq<Vec<(String, String)>> {
        self.property_group@
    }

    /// A project of its property groups. There is none where a group names a
    /// property twice.
    pub fn new(property_group: Vec<Vec<(String, String)>>) -> (project: Option<Project>)
        ensures
            project.is_some() == all_named_once(property_group@),
            project matches Some(made) ==> made.groups() == property_group@,
    {
        let mut at: usize = 0;
        while at < property_group.len()
            invariant
                at <= property_group@.len(),
                forall|before: int| 0 <= before < at ==> names_once(#[trigger] property_group@[before]@),
            decreases property_group@.len() - at,
        {
            if !named_once(&property_group[at]) {
                return None;
            }
            at = at + 1;
        }
        Some(Project { property_group })
    }

    /// The property groups of the project, each naming its properties once.
    pub fn property_group(&self) -> (groups: &Vec<Vec<(String, String)>>)
        ensures
            groups@ == self.groups(),
            all_named_once(groups@),
    {
        proof {
            use_type_invariant(self);
        }
        &self.property_group
    }

    /// The assembly name that the project declares, if it declares one.
    pub fn assembly_name(&self) -> (name: Option<String>)
        ensures
            (match name {
                Some(text) => first_property(self.groups(), "AssemblyName"@) == Some(text@),
                None => first_property(self.groups(), "AssemblyName"@).is_none(),
            }),
    {
        let mut at: usize = 0;
        assert(self.property_group@.skip(0) =~= self.property_group@);
        while at < self.property_group.len()
            invariant
                at <= self.property_group@.len(),
                first_property(self.property_group@, "AssemblyName"@) == first_property(
                    self.property_group@.skip(at as int),
                    "AssemblyName"@,
                ),
            decreases self.property_group@.len() - at,
        {
            assert(self.property_group@.skip(at as int).skip(1) =~= self.property_group@.skip(
                at + 1,
            ));
            match property(&self.property_group[at], "AssemblyName") {
                Some(value) => {
                    return Some(value.clone());
                },
                None => {},
            }
            at = at + 1;
        }
        None
    }
}

/// Builds managed projects with the `dotnet` tool.
#[derive(Debug)]
pub struct Builder {
    dotnet: String,
    net: String,
}

/// What it takes to build one project: the program to run with its
/// arguments, the log that the build writes, and what comes of it, the name
/// of the assembly and the directory where it is put.
#[derive(Debug, PartialEq, Eq)]
pub struct BuildPlan {
    pub name: String,
    pub program: String,
    pub arguments: Vec<String>,
    pub log: String,
    pub output: String,
}

/// The log of a build: `build.log` beside the project file.
pub open spec fn log_path(directory: Seq<char>) -> Seq<char> {
    joined(directory, "build.log"@)
}

/// Where a release build of a project is put: `bin/Release/<net>` beside the
/// project file.
pub open spec fn output_path(directory: Seq<char>, net: Seq<char>) -> Seq<char> {
    joined(joined(joined(directory, "bin"@), "Release"@), net)
}

/// The arguments of a quiet release build that logs to a file.
pub open spec fn build_arguments(project_file: Seq<char>, log: Seq<char>) -> Seq<Seq<char>> {
    seq![
        "build"@,
        project_file,
        "-c"@,
        "Release"@,
        "-flp:v=q"@,
        "-flp:logfile="@ + log,
    ]
}

impl Builder {
    /// The path of the `dotnet` tool.
    pub closed spec fn program(&self) -> Seq<char> {
        self.dotnet@
    }

    /// The target framework moniker that is built for.
    pub closed spec fn target(&self) -> Seq<char> {
        self.net@
    }

    /// A builder that runs the tool `dotnet` of the install root `base` and
    /// builds for the target `net`.
    pub fn new(base: &str, net: &str) -> (builder: Builder)
        ensures
            builder.program() == joined(base@, "dotnet"@),
            builder.target() == net@,
    {
        Builder { dotnet: join(base, "dotnet"), net: net.to_owned() }
    }

    /// A builder whose tool goes by another file name, as where executables
    /// carry an extension.
    pub fn with_tool(base: &str, tool: &str, net: &str) -> (builder: Builder)
        ensures
            builder.program() == joined(base@, tool@),
            builder.target() == net@,
    {
        Builder { dotnet: join(base, tool), net: net.to_owned() }
    }

    /// Plans the build of a project, given what its file says. The assembly
    /// goes by the name that the project declares, and by the stem of the
    /// project file where it declares none.
    pub fn build(&self, project_file: &str, project: &Project) -> (plan: BuildPlan)
        requires
            parent_of(project_file@).is_some(),
            file_stem_of(project_file@).is_some(),
        ensures
            plan.name@ == (match first_property(project.groups(), "AssemblyName"@) {
                Some(declared) => declared,
                None => file_stem_of(project_file@).unwrap(),
            }),
            plan.program@ == self.program(),
            plan.log@ == log_path(parent_of(project_file@).unwrap()),
            crate::path::texts(plan.arguments@) == build_arguments(project_file@, plan.log@),
            plan.output@ == output_path(parent_of(project_file@).unwrap(), self.target()),
    {
        let directory = match parent(project_file) {
            Some(directory) => directory,
            None => String::new(),
        };
        let stem = match file_stem(project_file) {
            Some(stem) => stem,
            None => String::new(),
        };
        let name = match project.assembly_name() {
            Some(declared) => declared,
            None => stem,
        };
        let log = join(directory.as_str(), "build.log");
        let mut arguments: Vec<String> = Vec::new();
        arguments.push("build".to_owned());
        arguments.push(project_file.to_owned());
        arguments.push("-c".to_owned());
        arguments.push("Release".to_owned());
        arguments.push("-flp:v=q".to_owned());
        arguments.push(String::from_str("-flp:logfile=").concat(log.as_str()));
        assert(crate::path::texts(arguments@) =~= build_arguments(project_file@, log@));
        let bin = join(directory.as_str(), "bin");
        let release = join(bin.as_str(), "Release");
        let output = join(release.as_str(), self.net.as_str());
        BuildPlan { name, program: self.dotnet.clone(), arguments, log, output }
    }

    /// Plans the build of a project where its file has a directory and a
    /// stem, and does nothing where it has not.
    pub fn try_build(&self, project_file: &str, project: &Project) -> (plan: Option<BuildPlan>)
        ensures
            plan.is_some() == (parent_of(project_file@).is_some() && file_stem_of(
                project_file@,
            ).is_some()),
            plan matches Some(made) ==> made.name@ == (match first_property(
                project.groups(),
                "AssemblyName"@,
            ) {
                Some(declared) => declared,
                None => file_stem_of(project_file@).unwrap(),
            }) && made.program@ == self.program() && made.log@ == log_path(
                parent_of(project_file@).unwrap(),
            ) && crate::path::texts(made.arguments@) == build_arguments(project_file@, made.log@)
                && made.output@ == output_path(parent_of(project_file@).unwrap(), self.target()),
    {
        if parent(project_file).is_some() && file_stem(project_file).is_some() {
            Some(self.build(project_file, project))
        } else {
            None
        }
    }
}

} // verus!
