use std::path::Path;

use matrix_mcp::path::{
    default_session_path, default_store_path, extension, file_name, join, parent,
};

const PATHS: [&str; 40] = [
    "", "/", "//", ".", "..", "./", "../", "/.", "/..", "./.", "a", "a/", "a//", "a/.", "a/./",
    "a/..", "a/b", "a/b/", "a//b", "a/./b", "./a", "./a/b", "../a", "/a", "/a/", "/a/b", "/a/b/.",
    "/a/./b/./", "//a", "/./a", "a/./.", "a.txt", ".hidden", "a.tar.gz", "dir.d/name", "dir/..x",
    "..x", "name.", "\u{e9}/\u{1F44D}.\u{fc}", "./.",
];

#[test]
fn parents_are_those_of_std() {
    for path in PATHS {
        let expected = Path::new(path).parent().map(|p| p.to_str().unwrap().to_owned());
        assert_eq!(parent(path), expected, "parent of {path:?}");
    }
}

#[test]
fn file_names_are_those_of_std() {
    for path in PATHS {
        let expected = Path::new(path).file_name().map(|p| p.to_str().unwrap().to_owned());
        assert_eq!(file_name(path), expected, "file name of {path:?}");
    }
}

#[test]
fn extensions_are_those_of_std() {
    for path in PATHS {
        let expected = Path::new(path).extension().map(|p| p.to_str().unwrap().to_owned());
        let found = file_name(path).and_then(|name| extension(&name));
        assert_eq!(found, expected, "extension of {path:?}");
    }
}

#[test]
fn joins_are_those_of_std() {
    for base in PATHS {
        for part in ["store", "/abs", "", "a/b"] {
            let expected = Path::new(base).join(part).to_str().unwrap().to_owned();
            if part.is_empty() && base.is_empty() {
                assert_eq!(join(base, part), "");
            } else {
                assert_eq!(join(base, part), expected, "{base:?} joined with {part:?}");
            }
        }
    }
}

#[test]
fn session_file_follows_the_environment() {
    assert_eq!(
        default_session_path(Some("/state"), Some("/home/me")),
        "/state/matrix-mcp/session.json"
    );
    assert_eq!(
        default_session_path(Some(""), Some("/home/me")),
        "/home/me/.local/state/matrix-mcp/session.json"
    );
    assert_eq!(
        default_session_path(None, Some("/home/me/")),
        "/home/me/.local/state/matrix-mcp/session.json"
    );
    assert_eq!(default_session_path(None, Some("")), "matrix-mcp-session.json");
    assert_eq!(default_session_path(None, None), "matrix-mcp-session.json");
}

#[test]
fn store_is_beside_the_session_file() {
    assert_eq!(default_store_path("/a/session.json"), "/a/store");
    assert_eq!(default_store_path("/session.json"), "/store");
    assert_eq!(default_store_path("session.json"), "./store");
    assert_eq!(default_store_path("a/b/session.json"), "a/b/store");
    assert_eq!(default_store_path("/"), "./store");
    assert_eq!(default_store_path(""), "./store");
    for path in PATHS {
        let store = default_store_path(path);
        assert_eq!(file_name(&store).as_deref(), Some("store"));
    }
}
