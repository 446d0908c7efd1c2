//! Tests of the fixture's verified steps: argument handling, resolution
//! outcomes, and the rendering of output and diagnostics.

use runfiles_user::cli::parse_args;
use runfiles_user::cli::SUCCESS_EXIT_CODE;
use runfiles_user::cli::USAGE_EXIT_CODE;
use runfiles_user::locate::init_failure_message;
use runfiles_user::locate::resolution_outcome;
use runfiles_user::output::read_outcome;
use runfiles_user::output::render_output;

fn argv(parts: &[&str]) -> Vec<String> {
    parts.iter().map(|p| p.to_string()).collect()
}

#[test]
fn zero_extra_arguments_are_refused_with_usage() {
    let r = parse_args(&argv(&["runfiles_user"]));
    let m = r.err().expect("a lone program name must be refused");
    assert_eq!(m.usage, "Usage: runfiles_user <runfile_path>");
    assert_eq!(m.example, "Example: runfiles_user workspace/path/to/file.txt");
}

#[test]
fn two_extra_arguments_are_refused_with_usage() {
    let r = parse_args(&argv(&["runfiles_user", "a/b.txt", "c/d.txt"]));
    let m = r.err().expect("two runfile paths must be refused");
    assert_eq!(m.usage, "Usage: runfiles_user <runfile_path>");
    assert_eq!(m.example, "Example: runfiles_user workspace/path/to/file.txt");
}

#[test]
fn usage_message_names_the_program() {
    let r = parse_args(&argv(&["some/odd/binary-name"]));
    let m = r.err().expect("a lone program name must be refused");
    assert!(m.usage.contains("some/odd/binary-name"));
    assert!(m.example.contains("some/odd/binary-name"));
    assert!(m.example.contains("workspace/path/to/file.txt"));
}

#[test]
fn exactly_one_argument_is_accepted() {
    let r = parse_args(&argv(&["runfiles_user", "workspace/data/hello.txt"]));
    let a = r.ok().expect("one runfile path must be accepted");
    assert_eq!(a.rlocationpath, "workspace/data/hello.txt");
}

#[test]
fn exit_codes() {
    assert_eq!(USAGE_EXIT_CODE, 1);
    assert_eq!(SUCCESS_EXIT_CODE, 0);
}

#[test]
fn a_mapped_path_is_handed_on_unchanged() {
    let path = String::from("workspace/data/hello.txt");
    let r = resolution_outcome(&path, Some(String::from("/runfiles/workspace/data/hello.txt")));
    assert_eq!(r.ok().unwrap(), "/runfiles/workspace/data/hello.txt");
}

#[test]
fn an_unmapped_path_names_itself_in_the_diagnostic() {
    let path = String::from("workspace/data/missing.txt");
    let r = resolution_outcome(&path, None);
    let d = r.err().expect("an unmapped path must be refused");
    assert_eq!(d, "Failed to locate runfile: workspace/data/missing.txt");
    assert!(d.contains("workspace/data/missing.txt"));
}

#[test]
fn init_failure_message_text() {
    assert_eq!(init_failure_message(), "Failed to locate runfiles");
}

#[test]
fn hello_world_contents_print_hello_world_and_a_newline() {
    let out = render_output(&String::from("Hello, world!\n"));
    assert_eq!(out, "Hello, world!\n");
}

#[test]
fn contents_without_a_trailing_newline_are_unchanged() {
    let out = render_output(&String::from("Hello, world!"));
    assert_eq!(out, "Hello, world!");
}

#[test]
fn empty_contents_print_nothing() {
    let out = render_output(&String::from(""));
    assert_eq!(out, "");
}

#[test]
fn repeated_rendering_of_unchanged_contents_is_identical() {
    let content = String::from("stable contents\nof a runfile\n");
    let first = render_output(&content);
    let second = render_output(&content);
    assert_eq!(first, second);
}

#[test]
fn readable_contents_become_the_output() {
    let path = String::from("/runfiles/workspace/data/hello.txt");
    let r = read_outcome(&path, Ok(String::from("Hello, world!\n")));
    assert_eq!(r.ok().unwrap(), "Hello, world!\n");
}

#[test]
fn a_failed_read_names_path_and_cause() {
    let path = String::from("/runfiles/workspace/data/gone.txt");
    let r = read_outcome(&path, Err(String::from("No such file or directory (os error 2)")));
    let d = r.err().expect("a failed read must be refused");
    assert_eq!(
        d,
        "Failed to read file: /runfiles/workspace/data/gone.txt\nNo such file or directory (os error 2)"
    );
    assert!(d.contains("/runfiles/workspace/data/gone.txt"));
}
