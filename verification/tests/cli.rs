use mini_grep::cli::parse_args;
use mini_grep::cli::usage_hint;
use mini_grep::cli::usage_text;
use mini_grep::cli::Invocation;

fn args(items: &[&str]) -> Vec<String> {
    items.iter().map(|t| t.to_string()).collect()
}

#[test]
fn lone_help_flag() {
    assert!(matches!(parse_args(&args(&["mini-grep", "-h"])), Invocation::Help));
    assert!(matches!(parse_args(&args(&["mini-grep", "--help"])), Invocation::Help));
}

#[test]
fn lone_version_flag() {
    assert!(matches!(parse_args(&args(&["mini-grep", "-v"])), Invocation::Version));
    assert!(matches!(parse_args(&args(&["mini-grep", "--version"])), Invocation::Version));
}

#[test]
fn too_few_arguments() {
    assert!(matches!(parse_args(&args(&["mini-grep"])), Invocation::Usage));
    assert!(matches!(parse_args(&args(&["mini-grep", "apple"])), Invocation::Usage));
}

#[test]
fn pattern_and_target() {
    let r = parse_args(&args(&["mini-grep", "apple", "sample.txt"]));
    match r {
        Invocation::Run { pattern, path } => {
            assert_eq!(pattern, "apple");
            assert_eq!(path, "sample.txt");
        }
        _ => panic!("expected a search run"),
    }
}

#[test]
fn flag_like_pattern_with_target_is_a_run() {
    let r = parse_args(&args(&["mini-grep", "-h", "sample.txt"]));
    match r {
        Invocation::Run { pattern, path } => {
            assert_eq!(pattern, "-h");
            assert_eq!(path, "sample.txt");
        }
        _ => panic!("expected a search run"),
    }
}

#[test]
fn usage_hint_text() {
    assert_eq!(usage_hint(), "Usage: mini-grep <pattern> <file|dir|- (stdin)>");
}

#[test]
fn help_text() {
    let text = usage_text();
    let expected = "Usage: mini-grep <pattern> <file|dir|- (stdin)>\n\nOptions:\n  -h, --help       Print this help message\n  -V, --version    Print version information\n\nExamples:\n  mini-grep \"apple\" sample.txt\n  mini-grep \"foo.*bar\" ./logs\n  type sample.txt | mini-grep \"apple\" -\n";
    assert_eq!(text, expected);
}
