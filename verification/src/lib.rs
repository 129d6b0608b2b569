//! A native-to-managed runtime bridge: the hosting, reflection and invocation
//! protocol of an embedded managed runtime, stated over plain values.
//!
//! The crate decides what is handed to the managed side and what each reply
//! means. Performing a call (loading the shim, jumping through a resolved
//! function pointer) is left to the embedding program.

pub mod config;
pub mod dotnet;
pub mod error;
pub mod handle;
pub mod hostfxr;
pub mod library;
pub mod marshal;
pub mod metadata;
pub mod path;
pub mod plugin;
pub mod project;
pub mod runtime;
pub mod text;

pub use error::{Error, Result};
pub use plugin::CSharpPlugin;
pub use project::{format_engine_csproj, format_scripts_csproj};
pub use runtime::{Runtime, Script};
