//! The project files of the two managed modules.

use vstd::prelude::*;
use vstd::string::StringExecFns;

verus! {


/// What stands before the target of the scripts project.
pub const SCRIPTS_HEAD: &'static str = r#"<Project Sdk="Microsoft.NET.Sdk">
  <PropertyGroup>
    <TargetFramework>"#;

/// What stands between the target and the framework version.
pub const SCRIPTS_AFTER_TARGET: &'static str = r#"</TargetFramework>
    <RuntimeFrameworkVersion>"#;

/// What stands between the framework version and the version of the framework reference.
pub const SCRIPTS_AFTER_VERSION: &'static str = r#"</RuntimeFrameworkVersion>
    <DebugType>portable</DebugType>
    <RollForward>Disable</RollForward>
    <ImplicitUsings>disable</ImplicitUsings>
    <Nullable>enable</Nullable>
  </PropertyGroup>
  <ItemGroup>
    <FrameworkReference Update="Microsoft.NETCore.App" RuntimeFrameworkVersion=""#;

/// What stands between the framework reference and the target in the path of the engine.
pub const SCRIPTS_AFTER_REFERENCE: &'static str = r#"" />
  </ItemGroup>
  <ItemGroup Condition="'$(Configuration)' == 'Debug'">
    <ProjectReference Include="..\engine\Engine.csproj" />
  </ItemGroup>
  <ItemGroup Condition="'$(Configuration)' != 'Debug'">
    <Reference Include="Engine">
      <HintPath>..\engine\bin\Release\"#;

/// What stands behind the path of the engine.
pub const SCRIPTS_TAIL: &'static str = r#"\Engine.dll</HintPath>
    </Reference>
  </ItemGroup>
</Project>"#;

/// The project file of the scripts module for a target and a framework
/// version. It refers to the engine: to its project in a debug build, to its
/// built assembly else.
pub open spec fn scripts_csproj_text(net: Seq<char>, framework: Seq<char>) -> Seq<char> {
    SCRIPTS_HEAD@ + net + SCRIPTS_AFTER_TARGET@ + framework + SCRIPTS_AFTER_VERSION@ + framework
        + SCRIPTS_AFTER_REFERENCE@ + net + SCRIPTS_TAIL@
}

/// What stands before the target of the engine project.
pub const ENGINE_HEAD: &'static str = r#"<Project Sdk="Microsoft.NET.Sdk">
  <PropertyGroup>
    <TargetFramework>"#;

/// What stands between the target and the framework version.
pub const ENGINE_AFTER_TARGET: &'static str = r#"</TargetFramework>
    <RuntimeFrameworkVersion>"#;

/// What stands between the framework version and the version of the framework reference.
pub const ENGINE_AFTER_VERSION: &'static str = r#"</RuntimeFrameworkVersion>
    <ImplicitUsings>disable</ImplicitUsings>
    <DebugType>portable</DebugType>
    <Nullable>enable</Nullable>
    <RollForward>Disable</RollForward>
  </PropertyGroup>
  <ItemGroup>
    <FrameworkReference Update="Microsoft.NETCore.App" RuntimeFrameworkVersion=""#;

/// What stands behind the framework reference.
pub const ENGINE_TAIL: &'static str = r#"" />
  </ItemGroup>
</Project>"#;

/// The project file of the engine module for a target and a framework
/// version.
pub open spec fn engine_csproj_text(net: Seq<char>, framework: Seq<char>) -> Seq<char> {
    ENGINE_HEAD@ + net + ENGINE_AFTER_TARGET@ + framework + ENGINE_AFTER_VERSION@ + framework
        + ENGINE_TAIL@
}

/// Writes the project file of the scripts module.
pub fn format_scripts_csproj(net: &str, framework: &str) -> (text: String)
    ensures
        text@ == scripts_csproj_text(net@, framework@),
{
    String::from_str(SCRIPTS_HEAD).concat(net).concat(SCRIPTS_AFTER_TARGET).concat(framework).concat(
        SCRIPTS_AFTER_VERSION,
    ).concat(framework).concat(SCRIPTS_AFTER_REFERENCE).concat(net).concat(SCRIPTS_TAIL)
}

/// Writes the project file of the engine module.
pub fn format_engine_csproj(net: &str, framework: &str) -> (text: String)
    ensures
        text@ == engine_csproj_text(net@, framework@),
{
    String::from_str(ENGINE_HEAD).concat(net).concat(ENGINE_AFTER_TARGET).concat(framework).concat(
        ENGINE_AFTER_VERSION,
    ).concat(framework).concat(ENGINE_TAIL)
}

} // verus!
