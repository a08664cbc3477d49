//! Per-user configuration, data and cache directories, by the conventions
//! of Linux, macOS and Windows.
//!
//! Each lookup is a function of four values and of nothing else: the
//! operating system, the choice of XDG-style directories on macOS, the
//! variables of the process, and the user's home directory. It reads no
//! variable by itself and touches no file: the caller hands it an
//! [`Environment`] that holds the [`consulted_variables`] as the process
//! has them, and the home directory as the system reports it.
//!
//! Paths are bytes and need not be valid UTF-8. No lookup fails: where
//! nothing tells the directory, it returns `None`.

use vstd::prelude::*;
use vstd::slice::slice_to_vec;
use vstd::string::StringSliceAdditionalSpecFns;

pub mod environment;
pub mod laws;
pub mod path;
pub mod platform;

pub use crate::environment::lookup_env;
pub use crate::environment::Environment;
pub use crate::path::is_absolute;
pub use crate::path::join;
pub use crate::platform::consulted_variables;
pub use crate::platform::Os;

use crate::environment::lookup_env_spec;
use crate::environment::Variables;
use crate::path::borrowed_bytes;
use crate::path::join_spec;
use crate::path::owned_bytes;
use crate::platform::APPDATA;
use crate::platform::APPLE_APP_SUPPORT;
use crate::platform::APPLE_CACHES;
use crate::platform::CACHE_SUFFIX;
use crate::platform::CONFIG_SUFFIX;
use crate::platform::DATA_SUFFIX;
use crate::platform::LOCALAPPDATA;
use crate::platform::XDG_CACHE_HOME;
use crate::platform::XDG_CONFIG_HOME;
use crate::platform::XDG_DATA_HOME;

verus! {

/// The directory `suffix` below `base`, where there is a base.
pub open spec fn below_spec(base: Option<Seq<u8>>, suffix: Seq<u8>) -> Option<Seq<u8>> {
    match base {
        Some(b) => Some(join_spec(b, suffix)),
        None => None,
    }
}

fn below(base: Option<&[u8]>, suffix: &str) -> (dir: Option<Vec<u8>>)
    ensures
        owned_bytes(dir) == below_spec(borrowed_bytes(base), suffix.spec_bytes()),
{
    match base {
        Some(b) => Some(join(b, suffix.as_bytes())),
        None => None,
    }
}

fn to_owned_path(path: Option<&[u8]>) -> (owned: Option<Vec<u8>>)
    ensures
        owned_bytes(owned) == borrowed_bytes(path),
{
    match path {
        Some(p) => Some(slice_to_vec(p)),
        None => None,
    }
}

/// The user's configuration directory.
///
/// | System  | Directory                                                    |
/// | ------- | ------------------------------------------------------------ |
/// | Linux   | `.config` below `$XDG_CONFIG_HOME`, or else below the home   |
/// | macOS   | `Library/Application Support` below the home                 |
/// | macOS, `favor_xdg_style` | `.config` below the home                    |
/// | Windows | `%APPDATA%`                                                  |
/// | other   | none                                                         |
///
/// On Linux the variable names a base directory, and `.config` is appended
/// to it as it is to the home directory.
pub open spec fn config_dir_spec(
    os: Os,
    favor_xdg_style: bool,
    env: Variables,
    home: Option<Seq<u8>>,
) -> Option<Seq<u8>> {
    match os {
        Os::Linux => match lookup_env_spec(env, XDG_CONFIG_HOME@) {
            Some(base) => Some(join_spec(base, CONFIG_SUFFIX.spec_bytes())),
            None => below_spec(home, CONFIG_SUFFIX.spec_bytes()),
        },
        Os::MacOs => below_spec(
            home,
            if favor_xdg_style {
                CONFIG_SUFFIX.spec_bytes()
            } else {
                APPLE_APP_SUPPORT.spec_bytes()
            },
        ),
        Os::Windows => lookup_env_spec(env, APPDATA@),
        Os::Other => None,
    }
}

/// Returns the user's configuration directory, or `None` where neither the
/// environment nor the home directory gives one.
pub fn config_dir(
    os: Os,
    favor_xdg_style: bool,
    env: &Environment,
    home: Option<&[u8]>,
) -> (dir: Option<Vec<u8>>)
    ensures
        owned_bytes(dir) == config_dir_spec(os, favor_xdg_style, env@, borrowed_bytes(home)),
{
    match os {
        Os::Linux => {
            let base = match lookup_env(env, XDG_CONFIG_HOME) {
                Some(value) => Some(value),
                None => home,
            };
            below(base, CONFIG_SUFFIX)
        },
        Os::MacOs => {
            if favor_xdg_style {
                below(home, CONFIG_SUFFIX)
            } else {
                below(home, APPLE_APP_SUPPORT)
            }
        },
        Os::Windows => to_owned_path(lookup_env(env, APPDATA)),
        Os::Other => None,
    }
}

/// The user's data directory.
///
/// | System  | Directory                                                    |
/// | ------- | ------------------------------------------------------------ |
/// | Linux   | `$XDG_DATA_HOME`, or else `.local/share` below the home      |
/// | macOS   | `Library/Application Support` below the home                 |
/// | macOS, `favor_xdg_style` | `.local/share` below the home               |
/// | Windows | `%LOCALAPPDATA%`                                             |
/// | other   | none                                                         |
pub open spec fn data_dir_spec(
    os: Os,
    favor_xdg_style: bool,
    env: Variables,
    home: Option<Seq<u8>>,
) -> Option<Seq<u8>> {
    match os {
        Os::Linux => match lookup_env_spec(env, XDG_DATA_HOME@) {
            Some(dir) => Some(dir),
            None => below_spec(home, DATA_SUFFIX.spec_bytes()),
        },
        Os::MacOs => below_spec(
            home,
            if favor_xdg_style {
                DATA_SUFFIX.spec_bytes()
            } else {
                APPLE_APP_SUPPORT.spec_bytes()
            },
        ),
        Os::Windows => lookup_env_spec(env, LOCALAPPDATA@),
        Os::Other => None,
    }
}

/// Returns the user's data directory, or `None` where neither the
/// environment nor the home directory gives one.
pub fn data_dir(
    os: Os,
    favor_xdg_style: bool,
    env: &Environment,
    home: Option<&[u8]>,
) -> (dir: Option<Vec<u8>>)
    ensures
        owned_bytes(dir) == data_dir_spec(os, favor_xdg_style, env@, borrowed_bytes(home)),
{
    match os {
        Os::Linux => match lookup_env(env, XDG_DATA_HOME) {
            Some(value) => Some(slice_to_vec(value)),
            None => below(home, DATA_SUFFIX),
        },
        Os::MacOs => {
            if favor_xdg_style {
                below(home, DATA_SUFFIX)
            } else {
                below(home, APPLE_APP_SUPPORT)
            }
        },
        Os::Windows => to_owned_path(lookup_env(env, LOCALAPPDATA)),
        Os::Other => None,
    }
}

/// The user's cache directory.
///
/// | System  | Directory                                                    |
/// | ------- | ------------------------------------------------------------ |
/// | Linux   | `$XDG_CACHE_HOME`, or else `.cache` below the home           |
/// | macOS   | `Library/Caches` below the home                              |
/// | macOS, `favor_xdg_style` | `.cache` below the home                     |
/// | Windows | `%LOCALAPPDATA%`                                             |
/// | other   | none                                                         |
pub open spec fn cache_dir_spec(
    os: Os,
    favor_xdg_style: bool,
    env: Variables,
    home: Option<Seq<u8>>,
) -> Option<Seq<u8>> {
    match os {
        Os::Linux => match lookup_env_spec(env, XDG_CACHE_HOME@) {
            Some(dir) => Some(dir),
            None => below_spec(home, CACHE_SUFFIX.spec_bytes()),
        },
        Os::MacOs => below_spec(
            home,
            if favor_xdg_style {
                CACHE_SUFFIX.spec_bytes()
            } else {
                APPLE_CACHES.spec_bytes()
            },
        ),
        Os::Windows => lookup_env_spec(env, LOCALAPPDATA@),
        Os::Other => None,
    }
}

/// Returns the user's cache directory, or `None` where neither the
/// environment nor the home directory gives one.
pub fn cache_dir(
    os: Os,
    favor_xdg_style: bool,
    env: &Environment,
    home: Option<&[u8]>,
) -> (dir: Option<Vec<u8>>)
    ensures
        owned_bytes(dir) == cache_dir_spec(os, favor_xdg_style, env@, borrowed_bytes(home)),
{
    match os {
        Os::Linux => match lookup_env(env, XDG_CACHE_HOME) {
            Some(value) => Some(slice_to_vec(value)),
            None => below(home, CACHE_SUFFIX),
        },
        Os::MacOs => {
            if favor_xdg_style {
                below(home, CACHE_SUFFIX)
            } else {
                below(home, APPLE_CACHES)
            }
        },
        Os::Windows => to_owned_path(lookup_env(env, LOCALAPPDATA)),
        Os::Other => None,
    }
}

} // verus!
