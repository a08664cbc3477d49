//! What holds of the three lookups on every input.

use vstd::prelude::*;
use crate::cache_dir_spec;
use crate::config_dir_spec;
use crate::data_dir_spec;
use crate::environment::lookup_env_spec;
use crate::environment::Variables;
use crate::path::is_absolute_spec;
use crate::platform::consulted_spec;
use crate::platform::lemma_directory_names_are_relative;
use crate::platform::Os;
use crate::platform::APPDATA;
use crate::platform::LOCALAPPDATA;
use crate::platform::XDG_CACHE_HOME;
use crate::platform::XDG_CONFIG_HOME;
use crate::platform::XDG_DATA_HOME;

verus! {

/// The value that a lookup starts from: on Linux the variable `linux_key`,
/// or else the home directory; on macOS the home directory; on Windows the
/// variable `windows_key`.
pub open spec fn source(
    os: Os,
    env: Variables,
    home: Option<Seq<u8>>,
    linux_key: Seq<char>,
    windows_key: Seq<char>,
) -> Option<Seq<u8>> {
    match os {
        Os::Linux => match lookup_env_spec(env, linux_key) {
            Some(value) => Some(value),
            None => home,
        },
        Os::MacOs => home,
        Os::Windows => lookup_env_spec(env, windows_key),
        Os::Other => None,
    }
}

/// The value that the configuration directory is resolved from.
pub open spec fn config_source(os: Os, env: Variables, home: Option<Seq<u8>>) -> Option<Seq<u8>> {
    source(os, env, home, XDG_CONFIG_HOME@, APPDATA@)
}

/// The value that the data directory is resolved from.
pub open spec fn data_source(os: Os, env: Variables, home: Option<Seq<u8>>) -> Option<Seq<u8>> {
    source(os, env, home, XDG_DATA_HOME@, LOCALAPPDATA@)
}

/// The value that the cache directory is resolved from.
pub open spec fn cache_source(os: Os, env: Variables, home: Option<Seq<u8>>) -> Option<Seq<u8>> {
    source(os, env, home, XDG_CACHE_HOME@, LOCALAPPDATA@)
}

/// An environment as the conventions of `os` leave it: on Linux and macOS
/// the user has a home directory, on Windows both application data folders
/// are set and not empty.
pub open spec fn well_formed(os: Os, env: Variables, home: Option<Seq<u8>>) -> bool {
    match os {
        Os::Linux | Os::MacOs => home is Some,
        Os::Windows => {
            &&& lookup_env_spec(env, APPDATA@) is Some
            &&& lookup_env_spec(env, LOCALAPPDATA@) is Some
        },
        Os::Other => true,
    }
}

/// On a supported system with a well-formed environment every lookup
/// finds a directory.
pub proof fn lemma_present_when_well_formed(
    os: Os,
    favor_xdg_style: bool,
    env: Variables,
    home: Option<Seq<u8>>,
)
    requires
        os.is_supported(),
        well_formed(os, env, home),
    ensures
        config_dir_spec(os, favor_xdg_style, env, home) is Some,
        data_dir_spec(os, favor_xdg_style, env, home) is Some,
        cache_dir_spec(os, favor_xdg_style, env, home) is Some,
{
}

/// A lookup finds a directory exactly when it has a value to start from.
pub proof fn lemma_present_iff_source_present(
    os: Os,
    favor_xdg_style: bool,
    env: Variables,
    home: Option<Seq<u8>>,
)
    ensures
        config_dir_spec(os, favor_xdg_style, env, home) is Some
            <==> config_source(os, env, home) is Some,
        data_dir_spec(os, favor_xdg_style, env, home) is Some
            <==> data_source(os, env, home) is Some,
        cache_dir_spec(os, favor_xdg_style, env, home) is Some
            <==> cache_source(os, env, home) is Some,
{
}

/// A directory that is found is never the empty path: no directory and
/// the empty directory cannot be confused.
pub proof fn lemma_directory_not_empty(
    os: Os,
    favor_xdg_style: bool,
    env: Variables,
    home: Option<Seq<u8>>,
)
    ensures
        config_dir_spec(os, favor_xdg_style, env, home) matches Some(dir) ==> dir.len() > 0,
        data_dir_spec(os, favor_xdg_style, env, home) matches Some(dir) ==> dir.len() > 0,
        cache_dir_spec(os, favor_xdg_style, env, home) matches Some(dir) ==> dir.len() > 0,
{
    lemma_directory_names_are_relative();
}

/// The bytes that a lookup starts from open the directory it finds,
/// unchanged, whether or not they are valid UTF-8.
pub proof fn lemma_source_preserved(
    os: Os,
    favor_xdg_style: bool,
    env: Variables,
    home: Option<Seq<u8>>,
)
    ensures
        config_dir_spec(os, favor_xdg_style, env, home) matches Some(dir) ==> {
            &&& config_source(os, env, home) matches Some(from)
            &&& from.is_prefix_of(dir)
        },
        data_dir_spec(os, favor_xdg_style, env, home) matches Some(dir) ==> {
            &&& data_source(os, env, home) matches Some(from)
            &&& from.is_prefix_of(dir)
        },
        cache_dir_spec(os, favor_xdg_style, env, home) matches Some(dir) ==> {
            &&& cache_source(os, env, home) matches Some(from)
            &&& from.is_prefix_of(dir)
        },
{
    lemma_directory_names_are_relative();
}

/// A directory is absolute exactly when the value it was resolved from is
/// absolute: the lookups neither add a root nor take one away. So every
/// directory found is absolute where the variables and the home directory
/// are, as convention has them, and only there.
pub proof fn lemma_absolute_iff_source_absolute(
    os: Os,
    favor_xdg_style: bool,
    env: Variables,
    home: Option<Seq<u8>>,
)
    ensures
        config_dir_spec(os, favor_xdg_style, env, home) matches Some(dir) ==> {
            &&& config_source(os, env, home) matches Some(from)
            &&& is_absolute_spec(os, dir) <==> is_absolute_spec(os, from)
        },
        data_dir_spec(os, favor_xdg_style, env, home) matches Some(dir) ==> {
            &&& data_source(os, env, home) matches Some(from)
            &&& is_absolute_spec(os, dir) <==> is_absolute_spec(os, from)
        },
        cache_dir_spec(os, favor_xdg_style, env, home) matches Some(dir) ==> {
            &&& cache_source(os, env, home) matches Some(from)
            &&& is_absolute_spec(os, dir) <==> is_absolute_spec(os, from)
        },
{
    lemma_directory_names_are_relative();
}

/// Setting a variable to the empty value is the same as unsetting it: no
/// lookup can tell the two environments apart.
pub proof fn lemma_empty_value_is_unset(
    os: Os,
    favor_xdg_style: bool,
    env: Variables,
    home: Option<Seq<u8>>,
    key: Seq<char>,
)
    ensures
        forall|name: Seq<char>|
            lookup_env_spec(env.insert(key, Seq::empty()), name)
                == lookup_env_spec(env.remove(key), name),
        config_dir_spec(os, favor_xdg_style, env.insert(key, Seq::empty()), home)
            == config_dir_spec(os, favor_xdg_style, env.remove(key), home),
        data_dir_spec(os, favor_xdg_style, env.insert(key, Seq::empty()), home)
            == data_dir_spec(os, favor_xdg_style, env.remove(key), home),
        cache_dir_spec(os, favor_xdg_style, env.insert(key, Seq::empty()), home)
            == cache_dir_spec(os, favor_xdg_style, env.remove(key), home),
{
}

/// The lookups read the consulted variables of their system and no other:
/// two environments that agree on these give the same directories. On
/// macOS, where none is consulted, any two environments do.
pub proof fn lemma_consulted_variables_decide(
    os: Os,
    favor_xdg_style: bool,
    env: Variables,
    other: Variables,
    home: Option<Seq<u8>>,
)
    requires
        forall|i: int|
            0 <= i < consulted_spec(os).len() ==> lookup_env_spec(env, consulted_spec(os)[i])
                == lookup_env_spec(other, consulted_spec(os)[i]),
    ensures
        config_dir_spec(os, favor_xdg_style, env, home)
            == config_dir_spec(os, favor_xdg_style, other, home),
        data_dir_spec(os, favor_xdg_style, env, home)
            == data_dir_spec(os, favor_xdg_style, other, home),
        cache_dir_spec(os, favor_xdg_style, env, home)
            == cache_dir_spec(os, favor_xdg_style, other, home),
{
    match os {
        Os::Linux => {
            assert(consulted_spec(os)[0] == XDG_CONFIG_HOME@);
            assert(consulted_spec(os)[1] == XDG_DATA_HOME@);
            assert(consulted_spec(os)[2] == XDG_CACHE_HOME@);
        },
        Os::Windows => {
            assert(consulted_spec(os)[0] == APPDATA@);
            assert(consulted_spec(os)[1] == LOCALAPPDATA@);
        },
        Os::MacOs | Os::Other => {},
    }
}

/// On Windows no lookup falls back to the home directory: two home
/// directories, or none, give the same directories.
pub proof fn lemma_windows_ignores_home(
    favor_xdg_style: bool,
    env: Variables,
    home: Option<Seq<u8>>,
    other: Option<Seq<u8>>,
)
    ensures
        config_dir_spec(Os::Windows, favor_xdg_style, env, home)
            == config_dir_spec(Os::Windows, favor_xdg_style, env, other),
        data_dir_spec(Os::Windows, favor_xdg_style, env, home)
            == data_dir_spec(Os::Windows, favor_xdg_style, env, other),
        cache_dir_spec(Os::Windows, favor_xdg_style, env, home)
            == cache_dir_spec(Os::Windows, favor_xdg_style, env, other),
{
}

/// The choice of XDG-style directories matters on macOS only.
pub proof fn lemma_style_matters_on_macos_only(os: Os, env: Variables, home: Option<Seq<u8>>)
    requires
        os != Os::MacOs,
    ensures
        config_dir_spec(os, true, env, home) == config_dir_spec(os, false, env, home),
        data_dir_spec(os, true, env, home) == data_dir_spec(os, false, env, home),
        cache_dir_spec(os, true, env, home) == cache_dir_spec(os, false, env, home),
{
}

} // verus!
