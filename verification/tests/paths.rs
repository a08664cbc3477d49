use std::path::Path;
use std::path::PathBuf;
use user_dirs::platform::{
    APPLE_APP_SUPPORT, APPLE_CACHES, CACHE_SUFFIX, CONFIG_SUFFIX, DATA_SUFFIX,
};
use user_dirs::{is_absolute, join, Os};

#[test]
fn join_puts_one_separator_between() {
    assert_eq!(join(b"/home/testuser", b".config"), b"/home/testuser/.config");
    assert_eq!(join(b"a", b"b"), b"a/b");
    assert_eq!(join(b"/", b".cache"), b"/.cache");
}

#[test]
fn join_does_not_double_a_trailing_separator() {
    assert_eq!(join(b"/home/testuser/", b".config"), b"/home/testuser/.config");
    assert_eq!(join(b"/home/testuser//", b".config"), b"/home/testuser//.config");
}

#[test]
fn join_onto_empty_base_adds_no_separator() {
    assert_eq!(join(b"", b".local/share"), b".local/share");
    assert_eq!(join(b"", b""), b"");
}

#[test]
fn join_with_empty_fragment_ends_in_separator() {
    assert_eq!(join(b"/home/testuser", b""), b"/home/testuser/");
    assert_eq!(join(b"/home/testuser/", b""), b"/home/testuser/");
}

#[test]
fn join_with_rooted_fragment_keeps_the_fragment_only() {
    assert_eq!(join(b"/home/testuser", b"/etc"), b"/etc");
    assert_eq!(join(b"", b"/"), b"/");
}

#[test]
fn join_keeps_separators_inside_the_fragment() {
    assert_eq!(
        join(b"/Users/testuser", b"Library/Application Support"),
        b"/Users/testuser/Library/Application Support"
    );
}

#[test]
fn join_in_two_steps_is_join_at_once() {
    for home in [&b"/Users/testuser"[..], b"/Users/testuser/", b"", b"/", b"\xff"] {
        assert_eq!(
            join(&join(home, b"Library"), b"Application Support"),
            join(home, b"Library/Application Support")
        );
        assert_eq!(
            join(&join(home, b"Library"), b"Caches"),
            join(home, b"Library/Caches")
        );
        assert_eq!(
            join(&join(home, b".local"), b"share"),
            join(home, b".local/share")
        );
    }
}

#[test]
fn join_does_not_treat_backslash_as_separator() {
    assert_eq!(join(b"C:\\Users\\", b"x"), b"C:\\Users\\/x");
    assert_eq!(join(b"base", b"\\x"), b"base/\\x");
}

#[test]
fn join_agrees_with_the_host_where_it_separates_by_slash() {
    if std::path::MAIN_SEPARATOR != '/' {
        return;
    }
    let bases = ["", "/", "/home/testuser", "/home/testuser/", "relative", "a//", "."];
    let fragments = [
        CONFIG_SUFFIX,
        DATA_SUFFIX,
        CACHE_SUFFIX,
        APPLE_APP_SUPPORT,
        APPLE_CACHES,
        "",
        "/",
        "/etc",
        "x/",
        "Library",
    ];
    for base in bases {
        for fragment in fragments {
            let mut host = PathBuf::from(base);
            host.push(fragment);
            assert_eq!(
                join(base.as_bytes(), fragment.as_bytes()),
                host.into_os_string().into_encoded_bytes(),
                "{base:?} joined with {fragment:?}"
            );
        }
    }
}

#[test]
fn directory_names_are_the_known_ones() {
    assert_eq!(CONFIG_SUFFIX, ".config");
    assert_eq!(DATA_SUFFIX, ".local/share");
    assert_eq!(CACHE_SUFFIX, ".cache");
    assert_eq!(APPLE_APP_SUPPORT, "Library/Application Support");
    assert_eq!(APPLE_CACHES, "Library/Caches");
}

#[test]
fn unix_like_path_is_absolute_when_rooted() {
    for os in [Os::Linux, Os::MacOs] {
        assert!(is_absolute(os, b"/"));
        assert!(is_absolute(os, b"/home/testuser/.config"));
        assert!(is_absolute(os, b"/tmp/\xff\xfe"));
        assert!(!is_absolute(os, b""));
        assert!(!is_absolute(os, b".config"));
        assert!(!is_absolute(os, b"home/testuser"));
        assert!(!is_absolute(os, b"C:\\Users\\testuser"));
        assert!(!is_absolute(os, b"\\\\server\\share"));
    }
}

#[test]
fn unix_like_absolute_agrees_with_the_host_where_it_separates_by_slash() {
    if std::path::MAIN_SEPARATOR != '/' {
        return;
    }
    for path in ["", "/", "/home/testuser", "home", "./x", "//x", "C:\\x", "\\\\x"] {
        assert_eq!(
            is_absolute(Os::Linux, path.as_bytes()),
            Path::new(path).is_absolute(),
            "{path:?}"
        );
    }
}

#[test]
fn windows_path_is_absolute_with_drive_and_root() {
    assert!(is_absolute(Os::Windows, b"C:\\Users\\testuser\\AppData\\Roaming"));
    assert!(is_absolute(Os::Windows, b"C:\\"));
    assert!(is_absolute(Os::Windows, b"c:/Users"));
    assert!(is_absolute(Os::Windows, b"Z:\\"));
    assert!(is_absolute(Os::Windows, b"a:\\"));
    assert!(is_absolute(Os::Windows, b"z:/"));
    assert!(!is_absolute(Os::Windows, b"C:"));
    assert!(!is_absolute(Os::Windows, b"C:Users"));
    assert!(!is_absolute(Os::Windows, b"1:\\Users"));
    assert!(!is_absolute(Os::Windows, b"@:\\Users"));
    assert!(!is_absolute(Os::Windows, b"[:\\Users"));
    assert!(!is_absolute(Os::Windows, b"`:\\Users"));
    assert!(!is_absolute(Os::Windows, b"{:\\Users"));
    assert!(!is_absolute(Os::Windows, b"C;\\Users"));
}

#[test]
fn windows_path_is_absolute_with_two_leading_separators() {
    assert!(is_absolute(Os::Windows, b"\\\\server\\share\\dir"));
    assert!(is_absolute(Os::Windows, b"\\\\?\\C:\\Users"));
    assert!(is_absolute(Os::Windows, b"\\\\.\\COM1"));
    assert!(is_absolute(Os::Windows, b"//server/share"));
    assert!(is_absolute(Os::Windows, b"\\\\"));
}

#[test]
fn windows_path_is_relative_without_volume() {
    assert!(!is_absolute(Os::Windows, b""));
    assert!(!is_absolute(Os::Windows, b"\\"));
    assert!(!is_absolute(Os::Windows, b"\\Users\\testuser"));
    assert!(!is_absolute(Os::Windows, b"/home/testuser"));
    assert!(!is_absolute(Os::Windows, b"AppData\\Local"));
}

#[test]
fn no_path_is_absolute_on_an_unsupported_system() {
    assert!(!is_absolute(Os::Other, b"/"));
    assert!(!is_absolute(Os::Other, b"/home/testuser"));
    assert!(!is_absolute(Os::Other, b"C:\\Users"));
    assert!(!is_absolute(Os::Other, b""));
}
