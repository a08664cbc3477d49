//! Paths as the operating system holds them: plain bytes, of any content.
//!
//! Nothing here asks for valid UTF-8. On Unix-like systems the bytes are the
//! path itself; on Windows they are the system's own encoding of it.

use vstd::prelude::*;
use vstd::slice::slice_to_vec;
use crate::platform::Os;

verus! {

/// The separator of Unix-like paths, and the second separator of Windows.
pub const SEPARATOR: u8 = '/' as u8;

/// The first separator of Windows paths.
pub const BACKSLASH: u8 = '\\' as u8;

/// What follows the drive letter of a Windows path.
pub const COLON: u8 = ':' as u8;

/// The bytes of an optional borrowed path.
pub open spec fn borrowed_bytes(path: Option<&[u8]>) -> Option<Seq<u8>> {
    match path {
        Some(p) => Some(p@),
        None => None,
    }
}

/// The bytes of an optional owned path.
pub open spec fn owned_bytes(path: Option<Vec<u8>>) -> Option<Seq<u8>> {
    match path {
        Some(p) => Some(p@),
        None => None,
    }
}

/// A Unix-like path that starts at the root directory.
pub open spec fn has_root(path: Seq<u8>) -> bool {
    path.len() > 0 && path[0] == SEPARATOR
}

/// `base` followed by `fragment`, as a Unix-like system joins paths.
///
/// A rooted fragment replaces the base. Otherwise one separator stands
/// between the two, unless the base is empty or already ends in one.
pub open spec fn join_spec(base: Seq<u8>, fragment: Seq<u8>) -> Seq<u8> {
    if has_root(fragment) {
        fragment
    } else if base.len() == 0 || base.last() == SEPARATOR {
        base + fragment
    } else {
        base.push(SEPARATOR) + fragment
    }
}

/// Joins `fragment` onto `base` with the separator of Unix-like paths.
pub fn join(base: &[u8], fragment: &[u8]) -> (joined: Vec<u8>)
    ensures
        joined@ == join_spec(base@, fragment@),
{
    if fragment.len() > 0 && fragment[0] == SEPARATOR {
        return slice_to_vec(fragment);
    }
    let mut joined = slice_to_vec(base);
    let n: usize = base.len();
    if n > 0 && base[n - 1] != SEPARATOR {
        joined.push(SEPARATOR);
    }
    let ghost prefix = joined@;
    let mut i: usize = 0;
    while i < fragment.len()
        invariant
            i <= fragment.len(),
            joined@ == prefix + fragment@.subrange(0, i as int),
        decreases fragment.len() - i,
    {
        joined.push(fragment[i]);
        i += 1;
    }
    assert(fragment@.subrange(0, i as int) == fragment@);
    joined
}

/// A fragment that is not rooted goes below the base: the base opens the
/// joined path, which is rooted exactly when the base is.
pub proof fn lemma_join_relative(base: Seq<u8>, fragment: Seq<u8>)
    requires
        !has_root(fragment),
    ensures
        base.is_prefix_of(join_spec(base, fragment)),
        has_root(join_spec(base, fragment)) <==> has_root(base),
{
}

/// A separator at the end of the base is not doubled: with it or without
/// it the joined path is the same.
pub proof fn lemma_join_trailing_separator(base: Seq<u8>, fragment: Seq<u8>)
    requires
        base.len() > 0,
        base.last() != SEPARATOR,
    ensures
        join_spec(base.push(SEPARATOR), fragment) == join_spec(base, fragment),
{
}

/// Joining two names one after the other is joining them at once, with a
/// separator between them.
pub proof fn lemma_join_in_steps(base: Seq<u8>, first: Seq<u8>, second: Seq<u8>)
    requires
        first.len() > 0,
        !has_root(first),
        first.last() != SEPARATOR,
        !has_root(second),
    ensures
        join_spec(join_spec(base, first), second) == join_spec(
            base,
            first.push(SEPARATOR) + second,
        ),
{
}

/// Either separator of a Windows path.
pub open spec fn is_windows_separator(byte: u8) -> bool {
    byte == BACKSLASH || byte == SEPARATOR
}

/// An ASCII letter, as a Windows drive is named.
pub open spec fn is_drive_letter(byte: u8) -> bool {
    ('A' as u8 <= byte && byte <= 'Z' as u8) || ('a' as u8 <= byte && byte <= 'z' as u8)
}

/// A Windows path that names its volume and starts at that volume's root:
/// two leading separators (a network share, a device or a verbatim path),
/// or a drive letter, a colon and a separator.
pub open spec fn is_windows_absolute(path: Seq<u8>) -> bool {
    ||| {
        &&& path.len() >= 2
        &&& is_windows_separator(path[0])
        &&& is_windows_separator(path[1])
    }
    ||| {
        &&& path.len() >= 3
        &&& is_drive_letter(path[0])
        &&& path[1] == COLON
        &&& is_windows_separator(path[2])
    }
}

/// Whether `path` is absolute by the conventions of `os`. No path is
/// absolute on a system that is not supported.
pub open spec fn is_absolute_spec(os: Os, path: Seq<u8>) -> bool {
    match os {
        Os::Linux | Os::MacOs => has_root(path),
        Os::Windows => is_windows_absolute(path),
        Os::Other => false,
    }
}

fn windows_separator(byte: u8) -> (b: bool)
    ensures
        b == is_windows_separator(byte),
{
    byte == BACKSLASH || byte == SEPARATOR
}

fn drive_letter(byte: u8) -> (b: bool)
    ensures
        b == is_drive_letter(byte),
{
    ('A' as u8 <= byte && byte <= 'Z' as u8) || ('a' as u8 <= byte && byte <= 'z' as u8)
}

/// Tells whether `path` is absolute by the conventions of `os`.
pub fn is_absolute(os: Os, path: &[u8]) -> (absolute: bool)
    ensures
        absolute == is_absolute_spec(os, path@),
{
    let n: usize = path.len();
    match os {
        Os::Linux | Os::MacOs => n > 0 && path[0] == SEPARATOR,
        Os::Windows => {
            let shared = n >= 2 && windows_separator(path[0]) && windows_separator(path[1]);
            let on_drive = n >= 3 && drive_letter(path[0]) && path[1] == COLON
                && windows_separator(path[2]);
            shared || on_drive
        },
        Os::Other => false,
    }
}

} // verus!
