//! The build collaborator's side: how a managed project is built and how
//! its diagnostics are read.

pub mod builder;
pub mod diagnostic;
pub mod install;

pub use builder::Builder;
pub use install::get_path;
