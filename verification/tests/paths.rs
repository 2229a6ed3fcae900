use imagelink::paths::{dash_spaces, file_name, parent, source_path, trim_blanks};

#[test]
fn file_name_of_nested_path() {
    assert_eq!(file_name("photos/2019/IMG_1.jpg").as_deref(), Some("IMG_1.jpg"));
}

#[test]
fn file_name_of_bare_name() {
    assert_eq!(file_name("IMG_1.jpg").as_deref(), Some("IMG_1.jpg"));
}

#[test]
fn file_name_ignores_trailing_slash() {
    assert_eq!(file_name("a/b/").as_deref(), Some("b"));
}

#[test]
fn file_name_skips_cur_dir() {
    assert_eq!(file_name("a/b/.").as_deref(), Some("b"));
}

#[test]
fn file_name_of_parent_component_is_none() {
    assert_eq!(file_name("a/.."), None);
}

#[test]
fn file_name_of_root_is_none() {
    assert_eq!(file_name("/"), None);
    assert_eq!(file_name(""), None);
}

#[test]
fn parent_of_nested_path() {
    assert_eq!(parent("a/b/c").as_deref(), Some("a/b"));
}

#[test]
fn parent_of_single_component_is_empty() {
    assert_eq!(parent("a").as_deref(), Some(""));
}

#[test]
fn parent_keeps_root() {
    assert_eq!(parent("/a").as_deref(), Some("/"));
}

#[test]
fn parent_of_root_is_none() {
    assert_eq!(parent("/"), None);
    assert_eq!(parent(""), None);
}

#[test]
fn parent_ignores_doubled_slashes() {
    assert_eq!(parent("a//b").as_deref(), Some("a"));
}

#[test]
fn spaces_become_dashes() {
    assert_eq!(dash_spaces("IMG 2019 05.jpg"), "IMG-2019-05.jpg");
    assert_eq!(dash_spaces("nospace"), "nospace");
    assert_eq!(dash_spaces(""), "");
}

#[test]
fn blanks_are_trimmed_from_both_ends() {
    assert_eq!(trim_blanks("  a b \t\r\n"), "a b");
    assert_eq!(trim_blanks("plain"), "plain");
    assert_eq!(trim_blanks(" \t "), "");
}

#[test]
fn source_path_climbs_out_of_the_hierarchy() {
    assert_eq!(source_path(false, "pix/a.jpg"), "../../../pix/a.jpg");
}

#[test]
fn source_path_climbs_one_more_with_a_base() {
    assert_eq!(source_path(true, "pix/a.jpg"), "../../../../pix/a.jpg");
}

#[test]
fn source_path_keeps_absolute_paths() {
    assert_eq!(source_path(false, "/pix/a.jpg"), "/pix/a.jpg");
    assert_eq!(source_path(true, "/pix/a.jpg"), "/pix/a.jpg");
}
