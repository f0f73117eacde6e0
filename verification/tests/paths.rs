use orbit::path::{final_component_of, join};

fn some(text: &str) -> Option<String> {
    Some(text.to_string())
}

#[test]
fn final_component_is_the_last_name() {
    assert_eq!(final_component_of("/home/u/my project!"), some("my project!"));
    assert_eq!(final_component_of("tmp/foo.txt"), some("foo.txt"));
    assert_eq!(final_component_of("proj"), some("proj"));
}

#[test]
fn final_component_passes_over_trailing_slashes_and_dots() {
    assert_eq!(final_component_of("/usr/bin/"), some("bin"));
    assert_eq!(final_component_of("foo.txt/."), some("foo.txt"));
    assert_eq!(final_component_of("foo.txt/.//"), some("foo.txt"));
    assert_eq!(final_component_of("a//b"), some("b"));
}

#[test]
fn final_component_is_missing_after_a_parent_reference() {
    assert_eq!(final_component_of(".."), None);
    assert_eq!(final_component_of("foo.txt/.."), None);
    assert_eq!(final_component_of("/a/b/../"), None);
}

#[test]
fn final_component_is_missing_where_nothing_is_named() {
    assert_eq!(final_component_of(""), None);
    assert_eq!(final_component_of("/"), None);
    assert_eq!(final_component_of("."), None);
    assert_eq!(final_component_of("///"), None);
    assert_eq!(final_component_of("./"), None);
}

#[test]
fn final_component_keeps_names_that_only_look_like_dots() {
    assert_eq!(final_component_of("/a/..."), some("..."));
    assert_eq!(final_component_of("/a/.git"), some(".git"));
    assert_eq!(final_component_of("a/../b"), some("b"));
}

#[test]
fn final_component_agrees_with_the_standard_library() {
    let paths = [
        "/home/u/my project!", "/usr/bin/", "foo.txt/.", "foo.txt/.//", "foo.txt/..", "/", "",
        ".", "..", "a/../b", "./x", "x/./", "/a/.hidden", "é/ü",
    ];
    for path in paths {
        let expected = std::path::Path::new(path)
            .file_name()
            .map(|name| name.to_string_lossy().into_owned());
        assert_eq!(final_component_of(path), expected, "{}", path);
    }
}

#[test]
fn join_puts_a_slash_between() {
    assert_eq!(join("/home/u/proj", "orbit.sh"), "/home/u/proj/orbit.sh");
    assert_eq!(join("/home/u/.config", "orbit"), "/home/u/.config/orbit");
}

#[test]
fn join_adds_no_second_slash() {
    assert_eq!(join("/home/u/proj/", "orbit.sh"), "/home/u/proj/orbit.sh");
    assert_eq!(join("/", "orbit"), "/orbit");
}

#[test]
fn join_below_the_empty_path_is_the_name() {
    assert_eq!(join("", "orbit.sh"), "orbit.sh");
}

#[test]
fn join_agrees_with_the_standard_library() {
    for base in ["/home/u/proj", "/home/u/proj/", "", "/", "rel", "é"] {
        let expected = std::path::Path::new(base).join("orbit.sh");
        assert_eq!(join(base, "orbit.sh"), expected.to_string_lossy());
    }
}
