use ljobs::path::{
    basename, chomp, dirname, extension, remove_extension, remove_redundant_trailing_slashes,
};

#[test]
fn basename_takes_what_follows_the_last_slash() {
    assert_eq!(basename("a/b/c.txt"), "c.txt");
    assert_eq!(basename("/usr/lib"), "lib");
    assert_eq!(basename("plain"), "plain");
}

#[test]
fn basename_of_a_path_ending_in_a_slash_is_empty() {
    assert_eq!(basename("a/b/"), "");
    assert_eq!(basename("/"), "");
    assert_eq!(basename(""), "");
}

#[test]
fn basename_counts_characters_not_bytes() {
    assert_eq!(basename("höhe/größe.txt"), "größe.txt");
    assert_eq!(basename("日本/語"), "語");
}

#[test]
fn extension_includes_the_dot() {
    assert_eq!(extension("a/b.c"), Some(".c"));
    assert_eq!(extension("archive.tar.gz"), Some(".gz"));
    assert_eq!(extension("trailing."), Some("."));
}

#[test]
fn extension_looks_at_the_base_name_only() {
    assert_eq!(extension("a.b/c"), None);
    assert_eq!(extension("plain"), None);
    assert_eq!(extension(""), None);
    assert_eq!(extension("dir.d/"), None);
}

#[test]
fn extension_of_a_dot_file_is_the_whole_name() {
    assert_eq!(extension(".bashrc"), Some(".bashrc"));
    assert_eq!(extension("home/.profile"), Some(".profile"));
}

#[test]
fn remove_extension_cuts_the_last_extension() {
    assert_eq!(remove_extension("a.b/c.d"), "a.b/c");
    assert_eq!(remove_extension("archive.tar.gz"), "archive.tar");
    assert_eq!(remove_extension("trailing."), "trailing");
    assert_eq!(remove_extension(".bashrc"), "");
    assert_eq!(remove_extension("grüße.txt"), "grüße");
}

#[test]
fn remove_extension_keeps_a_name_without_extension() {
    assert_eq!(remove_extension("plain"), "plain");
    assert_eq!(remove_extension("a.b/c"), "a.b/c");
    assert_eq!(remove_extension(""), "");
}

#[test]
fn dirname_takes_what_precedes_the_last_slash() {
    assert_eq!(dirname("a/b"), "a");
    assert_eq!(dirname("a/b/c.txt"), "a/b");
    assert_eq!(dirname("/usr/lib"), "/usr");
}

#[test]
fn dirname_without_a_slash_is_a_dot() {
    assert_eq!(dirname("plain"), ".");
    assert_eq!(dirname(""), ".");
}

#[test]
fn dirname_below_the_root_is_the_root() {
    assert_eq!(dirname("/a"), "/");
    assert_eq!(dirname("/"), "/");
    assert_eq!(dirname("//"), "/");
    assert_eq!(dirname("/a///"), "/");
}

#[test]
fn dirname_ignores_redundant_slashes() {
    assert_eq!(dirname("a/b/"), "a");
    assert_eq!(dirname("a//b"), "a");
    assert_eq!(dirname("a///b///"), "a");
    assert_eq!(dirname("dir/"), ".");
}

#[test]
fn trailing_slashes_are_removed_but_not_a_lone_slash() {
    assert_eq!(remove_redundant_trailing_slashes("a/b///"), "a/b");
    assert_eq!(remove_redundant_trailing_slashes("a/b"), "a/b");
    assert_eq!(remove_redundant_trailing_slashes("/"), "/");
    assert_eq!(remove_redundant_trailing_slashes("///"), "/");
    assert_eq!(remove_redundant_trailing_slashes(""), "");
}

#[test]
fn chomp_takes_one_line_feed_off_the_end() {
    let mut line = String::from("task one\n");
    chomp(&mut line);
    assert_eq!(line, "task one");

    let mut two = String::from("x\n\n");
    chomp(&mut two);
    assert_eq!(two, "x\n");

    let mut only = String::from("\n");
    chomp(&mut only);
    assert_eq!(only, "");
}

#[test]
fn chomp_leaves_a_line_without_line_feed() {
    let mut last = String::from("no newline");
    chomp(&mut last);
    assert_eq!(last, "no newline");

    let mut empty = String::new();
    chomp(&mut empty);
    assert_eq!(empty, "");

    let mut cr = String::from("dos\r\n");
    chomp(&mut cr);
    assert_eq!(cr, "dos\r");
}
