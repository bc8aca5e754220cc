use sloughi::text::{repo_root, trim_end};

#[test]
fn trim_end_drops_the_line_end() {
    assert_eq!(trim_end("/home/user/project\n"), "/home/user/project");
}

#[test]
fn trim_end_drops_all_white_space_at_the_end() {
    assert_eq!(trim_end("abc \t\r\n \n"), "abc");
}

#[test]
fn trim_end_keeps_white_space_elsewhere() {
    assert_eq!(trim_end("  a b\tc  "), "  a b\tc");
}

#[test]
fn trim_end_of_white_space_is_empty() {
    assert_eq!(trim_end(" \n\t"), "");
    assert_eq!(trim_end(""), "");
}

#[test]
fn trim_end_leaves_trimmed_text_alone() {
    assert_eq!(trim_end("abc"), "abc");
}

#[test]
fn trim_end_knows_white_space_beyond_ascii() {
    assert_eq!(trim_end("caf\u{e9}\u{a0}\u{3000}"), "caf\u{e9}");
}

#[test]
fn repo_root_reads_what_the_tool_prints() {
    assert_eq!(repo_root(b"/home/user/project\n"), "/home/user/project");
}

#[test]
fn repo_root_reads_utf8() {
    assert_eq!(repo_root("/home/zo\u{eb}/d\u{e9}p\u{f4}t\r\n".as_bytes()), "/home/zo\u{eb}/d\u{e9}p\u{f4}t");
}

#[test]
fn repo_root_replaces_bytes_that_are_no_text() {
    assert_eq!(repo_root(b"/srv/\xff/repo\n"), "/srv/\u{fffd}/repo");
}

#[test]
fn repo_root_of_nothing_is_empty() {
    assert_eq!(repo_root(b""), "");
    assert_eq!(repo_root(b"\n"), "");
}
