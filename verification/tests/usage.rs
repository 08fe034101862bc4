use wsl_cwd::notice::{show_message_box, MessageBox};
use wsl_cwd::usage::{get_usage_message, invalid_argument_message, USAGE};

const HELP: &str = "Usage: program [OPTIONS]\n\nCopies the current working directory to the clipboard in WSL-compatible format.\n\nOptions:\n  -q, --quote-if-needed   Wrap the path in quotes only if it contains spaces.\n  -Q, --quote-always      Always wrap the path in quotes.\n  -n, --no-quote          Never wrap the path in quotes (overrides other quote options).\n  -h, --help              Show this help message and exit.";

#[test]
fn usage_message_is_the_fixed_text() {
    assert_eq!(get_usage_message(), HELP);
    assert_eq!(USAGE, HELP);
}

#[test]
fn usage_message_has_nine_lines_and_no_final_newline() {
    let text = get_usage_message();
    assert_eq!(text.lines().count(), 9);
    assert!(text.starts_with("Usage: program [OPTIONS]\n\n"));
    assert!(text.ends_with("Show this help message and exit."));
}

#[test]
fn invalid_argument_message_names_the_argument_then_the_help() {
    assert_eq!(
        invalid_argument_message("--bogus"),
        format!("Invalid argument: --bogus\n\n{}", HELP)
    );
}

#[test]
fn invalid_argument_message_keeps_the_argument_as_it_is() {
    assert_eq!(
        invalid_argument_message(""),
        format!("Invalid argument: \n\n{}", HELP)
    );
    assert_eq!(
        invalid_argument_message("a b\"c"),
        format!("Invalid argument: a b\"c\n\n{}", HELP)
    );
}

#[test]
fn message_box_holds_title_and_message() {
    let shown = show_message_box("Usage", "some text");
    assert_eq!(
        shown,
        MessageBox { title: "Usage".to_string(), message: "some text".to_string() }
    );
}

#[test]
fn message_box_may_be_empty() {
    let shown = show_message_box("", "");
    assert_eq!(shown.title, "");
    assert_eq!(shown.message, "");
}
