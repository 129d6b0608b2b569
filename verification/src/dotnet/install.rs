//! Where the managed runtime is installed.

use vstd::prelude::*;

use crate::path::{join, joined};

verus! {

/// A place where the runtime may be installed, and whether a directory is
/// there.
#[derive(Debug)]
pub struct Install {
    pub path: String,
    pub exists: bool,
}

/// The install root that is tried: the configured root where one is
/// configured, else the platform's default where that exists, else the
/// user's own.
pub open spec fn tried(root: Option<Install>, default: Install, fallback: Install) -> Install {
    match root {
        Some(configured) => configured,
        None => if default.exists {
            default
        } else {
            fallback
        },
    }
}

/// The default install root of a platform that has two: the first where a
/// directory is there, and the second where not, whether or not anything is
/// there.
pub open spec fn default_of(first: Install, second: Install) -> Install {
    if first.exists {
        first
    } else {
        second
    }
}

/// Picks the default install root of a platform that has two.
pub fn default_install(first: Install, second: Install) -> (picked: Install)
    ensures
        picked == default_of(first, second),
{
    if first.exists {
        first
    } else {
        second
    }
}

/// The user's own install root: `.dotnet` in the home directory.
pub fn user_install(home: &str) -> (path: String)
    ensures
        path@ == joined(home@, ".dotnet"@),
{
    join(home, ".dotnet")
}

/// Picks the install root of the runtime. A configured root overrules the
/// others, also where nothing is there; the root that is picked counts only
/// if it exists.
pub fn get_path(root: Option<Install>, default: Install, fallback: Install) -> (found: Option<
    String,
>)
    ensures
        (match found {
            Some(path) => tried(root, default, fallback).exists && path == tried(
                root,
                default,
                fallback,
            ).path,
            None => !tried(root, default, fallback).exists,
        }),
{
    let picked = match root {
        Some(configured) => configured,
        None => if default.exists {
            default
        } else {
            fallback
        },
    };
    if picked.exists {
        Some(picked.path)
    } else {
        None
    }
}

} // verus!
