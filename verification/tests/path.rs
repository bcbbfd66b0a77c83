use occlum_libos::fs::split_path;

#[test]
fn split_path_absolute() {
    assert_eq!(split_path("/a/b"), ("/a", "b"));
    assert_eq!(split_path("/usr/lib/libc.so"), ("/usr/lib", "libc.so"));
}

#[test]
fn split_path_relative() {
    assert_eq!(split_path("dir/sub/file.txt"), ("dir/sub", "file.txt"));
    assert_eq!(split_path("a"), (".", "a"));
}

#[test]
fn split_path_root_child() {
    assert_eq!(split_path("/a"), ("/", "a"));
    assert_eq!(split_path("/a/"), ("/", "a"));
}

#[test]
fn split_path_trailing_slashes_are_dropped() {
    assert_eq!(split_path("a/b/"), ("a", "b"));
    assert_eq!(split_path("a/b///"), ("a", "b"));
}

#[test]
fn split_path_only_slashes_or_empty() {
    assert_eq!(split_path("/"), (".", ""));
    assert_eq!(split_path("///"), (".", ""));
    assert_eq!(split_path(""), (".", ""));
}

#[test]
fn split_path_inner_double_slash_stays_in_base() {
    assert_eq!(split_path("a//b"), ("a/", "b"));
    assert_eq!(split_path("//a//"), ("/", "a"));
}

#[test]
fn split_path_non_ascii() {
    assert_eq!(split_path("é/ü"), ("é", "ü"));
    assert_eq!(split_path("/日本/語/"), ("/日本", "語"));
}

#[test]
fn split_path_rejoins_to_trimmed_path() {
    for path in ["a/b/c", "/x/y", "a//b", "//a", "q/r/"] {
        let trimmed = path.trim_end_matches('/');
        let (dir, file) = split_path(path);
        assert!(!file.contains('/'));
        if dir == "/" && trimmed.len() == file.len() + 1 {
            assert_eq!(format!("/{}", file), trimmed);
        } else {
            assert_eq!(format!("{}/{}", dir, file), trimmed);
        }
    }
    let (dir, file) = split_path("plain");
    assert_eq!((dir, file), (".", "plain"));
}
