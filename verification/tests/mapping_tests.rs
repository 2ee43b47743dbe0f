use teledap::mapping::{is_absolute_path, PathMapper};

#[test]
fn test_resolve_absolute_unchanged() {
    let mapper = PathMapper::new();
    let abs_path = "/home/user/main.cpp";
    let result = mapper.resolve(abs_path);
    assert_eq!(result, Some(abs_path.into()));
}

#[test]
fn test_resolve_alias_exact_match() {
    let mut mapper = PathMapper::new();
    mapper.register_alias("src", "/home/user/project/src");
    let result = mapper.resolve("src");
    assert_eq!(result, Some("/home/user/project/src".into()));
}

#[test]
fn test_resolve_alias_with_subpath() {
    let mut mapper = PathMapper::new();
    mapper.register_alias("src", "/home/user/project/src");
    let result = mapper.resolve("src/main.cpp");
    assert_eq!(result, Some("/home/user/project/src/main.cpp".into()));
}

#[test]
fn test_resolve_longest_alias_wins() {
    let mut mapper = PathMapper::new();
    mapper.register_alias("src", "/home/user/project/src");
    mapper.register_alias("src/sub", "/home/user/project/src/subdir");
    let result = mapper.resolve("src/sub/main.cpp");
    assert_eq!(
        result,
        Some("/home/user/project/src/subdir/main.cpp".into())
    );
}

#[test]
fn test_resolve_base_dir_fallback() {
    let mut mapper = PathMapper::new();
    mapper.register_base_dir("/home/user/project");
    let result = mapper.resolve("lib/helper.cpp");
    assert_eq!(result, Some("/home/user/project/lib/helper.cpp".into()));
}

#[test]
fn test_resolve_none_without_registration() {
    let mapper = PathMapper::new();
    let result = mapper.resolve("src/main.cpp");
    assert_eq!(result, None);
}

#[test]
fn test_reverse_exact() {
    let mut mapper = PathMapper::new();
    mapper.register_alias("src", "/home/user/project/src");
    let result = mapper.reverse("/home/user/project/src/main.cpp");
    assert_eq!(result, Some("src/main.cpp".into()));
}

#[test]
fn test_reverse_most_specific() {
    let mut mapper = PathMapper::new();
    mapper.register_alias("proj", "/home/user/project");
    mapper.register_alias("src", "/home/user/project/src");
    let result = mapper.reverse("/home/user/project/src/main.cpp");
    assert_eq!(result, Some("src/main.cpp".into()));
}

#[test]
fn test_reverse_base_dir() {
    let mut mapper = PathMapper::new();
    mapper.register_base_dir("/home/user/project");
    let result = mapper.reverse("/home/user/project/src/main.cpp");
    assert_eq!(result, Some("src/main.cpp".into()));
}

#[test]
fn test_reverse_no_match() {
    let mapper = PathMapper::new();
    let result = mapper.reverse("/home/user/project/src/main.cpp");
    assert_eq!(result, None);
}

#[test]
fn test_reverse_alias_exact_directory() {
    let mut mapper = PathMapper::new();
    mapper.register_alias("src", "/home/user/project/src");
    let result = mapper.reverse("/home/user/project/src");
    assert_eq!(result, Some("src".into()));
}

#[test]
fn mapping_test_clear() {
    let mut mapper = PathMapper::new();
    mapper.register_alias("src", "/home/user/project/src");
    mapper.register_base_dir("/home/user");
    assert!(!mapper.is_empty());
    mapper.clear();
    assert!(mapper.is_empty());
    assert_eq!(mapper.alias_count(), 0);
    assert_eq!(mapper.base_dir_count(), 0);
}

#[test]
fn test_windows_separators() {
    let mut mapper = PathMapper::new();
    mapper.register_alias("src", "C:/project/src");
    let result = mapper.resolve("src\\main.cpp");
    assert_eq!(result, Some("C:/project/src/main.cpp".into()));
}

#[test]
fn test_register_alias_replaces_previous_target() {
    let mut mapper = PathMapper::new();
    mapper.register_alias("src", "/old/src");
    mapper.register_alias("src", "/new/src");
    assert_eq!(mapper.alias_count(), 1);
    assert_eq!(mapper.resolve("src/a.c"), Some("/new/src/a.c".into()));
    assert_eq!(mapper.reverse("/old/src/a.c"), None);
}

#[test]
fn test_register_base_dir_keeps_each_registration() {
    let mut mapper = PathMapper::new();
    mapper.register_base_dir("/home/user/project");
    mapper.register_base_dir("/home/user/project");
    assert_eq!(mapper.base_dir_count(), 2);
}

#[test]
fn test_resolve_given_existing_base_dir_wins() {
    let mut mapper = PathMapper::new();
    mapper.register_base_dir("/first");
    mapper.register_base_dir("/second");
    // When the file is found under the second base directory, that one is used.
    assert_eq!(
        mapper.resolve_given("lib/a.c", Some(1)),
        Some("/second/lib/a.c".into())
    );
    // When it is found under none, the first base directory is the fallback.
    assert_eq!(
        mapper.resolve_given("lib/a.c", None),
        Some("/first/lib/a.c".into())
    );
}

#[test]
fn test_normalize_path_converts_backslashes() {
    assert_eq!(teledap::mapping::normalize_path("a\\b\\c.cpp"), "a/b/c.cpp");
    assert_eq!(teledap::mapping::normalize_path("plain/path"), "plain/path");
}

#[test]
fn test_base_candidates_join_each_base_dir() {
    let mut mapper = PathMapper::new();
    mapper.register_base_dir("/first");
    mapper.register_base_dir("/second");
    assert_eq!(
        mapper.base_candidates("lib/a.c"),
        vec!["/first/lib/a.c".to_string(), "/second/lib/a.c".to_string()]
    );
    assert!(PathMapper::new().base_candidates("x").is_empty());
}

#[test]
fn test_resolve_takes_first_existing_candidate() {
    let mut mapper = PathMapper::new();
    mapper.register_base_dir("/nonexistent-teledap-dir");
    mapper.register_base_dir("/");
    assert_eq!(mapper.resolve("tmp"), Some("/tmp".to_string()));
}

#[test]
fn test_reverse_then_resolve_round_trip() {
    let mut mapper = PathMapper::new();
    mapper.register_alias("src", "/home/user/project");
    let abs = "/home/user/project/main/x.c";
    let rel = mapper.reverse(abs).unwrap();
    assert_eq!(rel, "src/main/x.c");
    assert_eq!(mapper.resolve(&rel), Some(abs.to_string()));
}

#[test]
fn test_is_absolute_path() {
    assert!(is_absolute_path("/usr/lib"));
    assert!(!is_absolute_path("src/main.c"));
}
