use k8s_insider::path::{extension, file_name, file_stem, join_path, parent, with_extension};
use k8s_insider::wireguard::connection_manager::{is_connection_file, meta_path_for};

#[test]
fn joining() {
    assert_eq!(join_path("/home/u", ".kube"), "/home/u/.kube");
    assert_eq!(join_path("/home/u/", "x"), "/home/u/x");
    assert_eq!(join_path("", "x"), "x");
    assert_eq!(join_path("/a", "/b"), "/b");
}

#[test]
fn components() {
    assert_eq!(file_name("/a/b/insider0.conf").as_deref(), Some("insider0.conf"));
    assert_eq!(file_stem("/a/b/insider0.conf").as_deref(), Some("insider0"));
    assert_eq!(file_stem("/a/.bashrc").as_deref(), Some(".bashrc"));
    assert_eq!(file_stem("/a/.."), None);
    assert_eq!(extension("/a/b/insider0.conf").as_deref(), Some("conf"));
    assert_eq!(extension("/a/.bashrc"), None);
    assert_eq!(extension("/a/b"), None);
    assert_eq!(parent("/a/b").as_deref(), Some("/a"));
    assert_eq!(parent("/a").as_deref(), Some("/"));
    assert_eq!(parent("a").as_deref(), Some(""));
    assert_eq!(parent("/"), None);
    assert_eq!(parent(""), None);
}

#[test]
fn components_ignore_trailing_separators_and_current_dirs() {
    assert_eq!(file_name("."), None);
    assert_eq!(file_name(".."), None);
    assert_eq!(file_name("/"), None);
    assert_eq!(file_name(""), None);
    assert_eq!(file_name("dir/config/").as_deref(), Some("config"));
    assert_eq!(file_name("a/b/.").as_deref(), Some("b"));
    assert_eq!(file_name("a//b//").as_deref(), Some("b"));
    assert_eq!(parent("a//b/").as_deref(), Some("a"));
    assert_eq!(parent(".").as_deref(), Some(""));
    assert_eq!(parent("/a").as_deref(), Some("/"));
    assert_eq!(file_stem("dir/x.conf/").as_deref(), Some("x"));
    assert_eq!(with_extension("dir/x.conf/", "meta"), "dir/x.meta");
}

#[test]
fn meta_files_pair_with_configurations() {
    assert_eq!(with_extension("/t/insider3.conf", "meta"), "/t/insider3.meta");
    assert_eq!(with_extension("/t/a.b.conf", "meta"), "/t/a.b.meta");
    assert_eq!(with_extension("/t/noext", "meta"), "/t/noext.meta");
    assert_eq!(meta_path_for("/t/insider3.conf"), "/t/insider3.meta");
    assert_eq!(file_stem(&meta_path_for("/t/insider3.conf")), file_stem("/t/insider3.conf"));
    assert!(is_connection_file("/t/insider3.conf"));
    assert!(!is_connection_file("/t/insider3.meta"));
    assert!(!is_connection_file("/t/conf"));
}
