//! The operating systems, environment variables and directory names that the
//! lookups know about.

use vstd::prelude::*;
use vstd::string::is_ascii;
use vstd::string::StringSliceAdditionalSpecFns;
use crate::path::has_root;

verus! {

/// The operating system whose conventions a lookup follows.
///
/// A build picks one of these once; the lookups take it as a value so that
/// every convention can be exercised on any host.
#[derive(Clone, Copy, Debug, PartialEq, Eq, Structural)]
pub enum Os {
    /// XDG base directories, with a fallback below the home directory.
    Linux,
    /// Directories below the home directory only.
    MacOs,
    /// Known Folders, as mirrored in the environment.
    Windows,
    /// Any other system: no directory is known.
    Other,
}

impl Os {
    /// The systems for which the lookups can find a directory.
    pub open spec fn is_supported(self) -> bool {
        self != Os::Other
    }
}

/// Linux: overrides the configuration base directory.
pub const XDG_CONFIG_HOME: &'static str = "XDG_CONFIG_HOME";

/// Linux: overrides the data directory.
pub const XDG_DATA_HOME: &'static str = "XDG_DATA_HOME";

/// Linux: overrides the cache directory.
pub const XDG_CACHE_HOME: &'static str = "XDG_CACHE_HOME";

/// Windows: the roaming application data folder.
pub const APPDATA: &'static str = "APPDATA";

/// Windows: the local application data folder.
pub const LOCALAPPDATA: &'static str = "LOCALAPPDATA";

/// Configuration directory below the home directory, XDG style.
pub const CONFIG_SUFFIX: &'static str = ".config";

/// Data directory below the home directory, XDG style.
pub const DATA_SUFFIX: &'static str = ".local/share";

/// Cache directory below the home directory, XDG style.
pub const CACHE_SUFFIX: &'static str = ".cache";

/// Configuration and data directory below the home directory, Apple style.
pub const APPLE_APP_SUPPORT: &'static str = "Library/Application Support";

/// Cache directory below the home directory, Apple style.
pub const APPLE_CACHES: &'static str = "Library/Caches";

/// The names of the variables that a lookup on `os` may read: on Linux the
/// three XDG variables, on Windows the two application data folders, and
/// none anywhere else.
pub open spec fn consulted_spec(os: Os) -> Seq<Seq<char>> {
    match os {
        Os::Linux => seq![XDG_CONFIG_HOME@, XDG_DATA_HOME@, XDG_CACHE_HOME@],
        Os::Windows => seq![APPDATA@, LOCALAPPDATA@],
        Os::MacOs | Os::Other => seq![],
    }
}

/// The names in a list of variables, in its order.
pub open spec fn names(keys: Seq<&'static str>) -> Seq<Seq<char>> {
    Seq::new(keys.len(), |i: int| keys[i]@)
}

/// Lists the variables that a lookup on `os` may read. An environment that
/// holds these as the process has them is all that the lookups need of it.
pub fn consulted_variables(os: Os) -> (keys: Vec<&'static str>)
    ensures
        names(keys@) == consulted_spec(os),
{
    let mut keys: Vec<&'static str> = Vec::new();
    match os {
        Os::Linux => {
            keys.push(XDG_CONFIG_HOME);
            keys.push(XDG_DATA_HOME);
            keys.push(XDG_CACHE_HOME);
        },
        Os::Windows => {
            keys.push(APPDATA);
            keys.push(LOCALAPPDATA);
        },
        Os::MacOs | Os::Other => {},
    }
    keys
}

/// None of the directory names is empty or starts at the root: each goes
/// below the directory it is joined onto.
pub proof fn lemma_directory_names_are_relative()
    ensures
        CONFIG_SUFFIX.spec_bytes().len() > 0 && !has_root(CONFIG_SUFFIX.spec_bytes()),
        DATA_SUFFIX.spec_bytes().len() > 0 && !has_root(DATA_SUFFIX.spec_bytes()),
        CACHE_SUFFIX.spec_bytes().len() > 0 && !has_root(CACHE_SUFFIX.spec_bytes()),
        APPLE_APP_SUPPORT.spec_bytes().len() > 0 && !has_root(APPLE_APP_SUPPORT.spec_bytes()),
        APPLE_CACHES.spec_bytes().len() > 0 && !has_root(APPLE_CACHES.spec_bytes()),
{
    reveal_strlit(".config");
    reveal_strlit(".local/share");
    reveal_strlit(".cache");
    reveal_strlit("Library/Application Support");
    reveal_strlit("Library/Caches");
    assert(is_ascii(CONFIG_SUFFIX));
    assert(is_ascii(DATA_SUFFIX));
    assert(is_ascii(CACHE_SUFFIX));
    assert(is_ascii(APPLE_APP_SUPPORT));
    assert(is_ascii(APPLE_CACHES));
}

} // verus!
