//! Paths as text.
use cc_render::paths::{
    envmap_candidates, file_name, file_stem, join, parent, resolve_cc5_json_path,
    resolve_sidecar_path,
};
use std::path::Path;

const SAMPLES: [&str; 34] = [
    "", "/", "//", ".", "./", "..", "/.", "/..", "a", "a/", "/a", "./a", ".//a", "a/.", "a/..",
    "a/./", "a//b", "a/b/", "a/./b", "/a/b.glb", "a.glb", ".hidden", ".a.b", "x/.hidden", "a..b",
    "a.", "...", "/a/../b.c", "./.", "././a/.//", "/./a", ".a/", "a/b/..", "avatars/ä.b.glb",
];

#[test]
fn file_names_are_those_of_the_standard_library() {
    for s in SAMPLES {
        let want = Path::new(s).file_name().map(|n| n.to_str().unwrap().to_string());
        assert_eq!(file_name(s), want, "{s:?}");
    }
}

#[test]
fn parents_are_those_of_the_standard_library() {
    for s in SAMPLES {
        let want = Path::new(s).parent().map(|n| n.to_str().unwrap().to_string());
        assert_eq!(parent(s), want, "{s:?}");
    }
}

#[test]
fn stems_and_joins_are_those_of_the_standard_library() {
    for s in SAMPLES {
        let p = Path::new(s);
        if let Some(name) = p.file_name() {
            let want = p.file_stem().unwrap().to_str().unwrap().to_string();
            assert_eq!(file_stem(name.to_str().unwrap()), want, "{s:?}");
        }
        assert_eq!(join(s, "env"), p.join("env").to_str().unwrap(), "{s:?}");
    }
}

#[test]
fn physics_files_lie_next_to_the_avatar() {
    assert_eq!(resolve_cc5_json_path("a.glb").unwrap(), "a.json");
    assert_eq!(resolve_cc5_json_path("x/.glb").unwrap(), "x/.glb.json");
    assert_eq!(resolve_cc5_json_path("/a.glb").unwrap(), "/a.json");
    assert_eq!(resolve_cc5_json_path("x//y/./a.b.glb/").unwrap(), "x//y/a.b.json");
    assert!(resolve_cc5_json_path("").is_none());
    assert!(resolve_cc5_json_path("/").is_none());
    assert!(resolve_cc5_json_path("a/..").is_none());
    assert_eq!(resolve_sidecar_path("", None), ".physics.json");
}

#[test]
fn environment_maps_are_looked_for_upwards() {
    assert_eq!(
        envmap_candidates(Some("/maps"), Some("/home/me"), "/avatars"),
        vec![
            "/maps",
            "/home/me/avatars/env",
            "/home/avatars/env",
            "/avatars/env",
            "/avatars/env",
        ]
    );
    assert_eq!(envmap_candidates(None, None, "x"), vec!["x/env"]);
    assert_eq!(
        envmap_candidates(None, Some("a"), ""),
        vec!["a/avatars/env", "avatars/env", "env"]
    );
}
