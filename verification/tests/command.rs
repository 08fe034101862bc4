use wsl_cwd::command::{clipboard_text, parse_arguments, Command};
use wsl_cwd::notice::MessageBox;
use wsl_cwd::quoting::QuoteFlags;
use wsl_cwd::usage::get_usage_message;

fn strings(args: &[&str]) -> Vec<String> {
    args.iter().map(|a| a.to_string()).collect()
}

fn usage_box() -> Command {
    Command::ShowMessage(MessageBox { title: "Usage".to_string(), message: get_usage_message() })
}

fn error_box(arg: &str) -> Command {
    Command::ShowMessage(MessageBox {
        title: "Error".to_string(),
        message: format!("Invalid argument: {}\n\n{}", arg, get_usage_message()),
    })
}

fn text_for(args: &[&str], dir: &str) -> String {
    match parse_arguments(&strings(args)) {
        Command::CopyPath(flags) => clipboard_text(dir, flags),
        Command::ShowMessage(shown) => panic!("nothing is copied: {:?}", shown),
    }
}

#[test]
fn help_shows_the_usage_text() {
    assert_eq!(parse_arguments(&strings(&["--help"])), usage_box());
    assert_eq!(parse_arguments(&strings(&["-h"])), usage_box());
}

#[test]
fn help_anywhere_wins_over_everything_else() {
    assert_eq!(parse_arguments(&strings(&["-q", "-n", "-h"])), usage_box());
    assert_eq!(parse_arguments(&strings(&["--bogus", "--help", "--worse"])), usage_box());
}

#[test]
fn unknown_argument_is_reported_with_the_usage_text() {
    assert_eq!(parse_arguments(&strings(&["--bogus"])), error_box("--bogus"));
}

#[test]
fn only_the_first_unknown_argument_is_reported() {
    assert_eq!(
        parse_arguments(&strings(&["-q", "--bogus", "--worse"])),
        error_box("--bogus")
    );
    assert_eq!(parse_arguments(&strings(&["", "x"])), error_box(""));
}

#[test]
fn error_message_is_exact() {
    match parse_arguments(&strings(&["/?"])) {
        Command::ShowMessage(shown) => {
            assert_eq!(shown.title, "Error");
            assert!(shown.message.starts_with("Invalid argument: /?\n\nUsage: program [OPTIONS]\n"));
        },
        Command::CopyPath(_) => panic!("an unknown argument copies nothing"),
    }
}

#[test]
fn no_arguments_copy_without_flags() {
    assert_eq!(
        parse_arguments(&strings(&[])),
        Command::CopyPath(QuoteFlags {
            quote_if_needed: false,
            quote_always: false,
            no_quote: false
        })
    );
}

#[test]
fn flags_are_handed_on() {
    assert_eq!(
        parse_arguments(&strings(&["--no-quote", "--quote-always"])),
        Command::CopyPath(QuoteFlags { quote_if_needed: false, quote_always: true, no_quote: true })
    );
}

#[test]
fn windows_directory_is_copied_as_mounted_path() {
    assert_eq!(text_for(&[], "C:\\Users\\Test"), "/mnt/c/Users/Test/");
}

#[test]
fn no_quote_wins_over_quote_always() {
    assert_eq!(
        text_for(&["--no-quote", "--quote-always"], "C:\\Program Files"),
        "/mnt/c/Program Files/"
    );
    assert_eq!(text_for(&["-Q", "-n"], "C:\\Program Files"), "/mnt/c/Program Files/");
}

#[test]
fn quote_if_needed_quotes_a_directory_with_a_space() {
    assert_eq!(
        text_for(&["--quote-if-needed"], "C:\\Program Files"),
        "\"/mnt/c/Program Files/\""
    );
}

#[test]
fn quote_if_needed_leaves_a_directory_without_space() {
    assert_eq!(text_for(&["--quote-if-needed"], "C:\\Users\\Test"), "/mnt/c/Users/Test/");
    assert_eq!(text_for(&["-q"], "/home/test"), "/mnt//home/test/");
}

#[test]
fn quote_always_quotes_a_directory_without_space() {
    assert_eq!(text_for(&["-Q"], "C:\\Users\\Test"), "\"/mnt/c/Users/Test/\"");
}

#[test]
fn without_flags_nothing_is_quoted() {
    assert_eq!(text_for(&[], "C:\\Program Files"), "/mnt/c/Program Files/");
    assert_eq!(text_for(&[], "C:\\a \"b\" c"), "/mnt/c/a \"b\" c/");
    assert_eq!(text_for(&[], "/home/my dir"), "/mnt//home/my dir/");
}

#[test]
fn the_whole_text_is_quoted_not_its_parts() {
    assert_eq!(
        clipboard_text(
            "D:\\My Docs\\a b",
            QuoteFlags { quote_if_needed: true, quote_always: false, no_quote: false }
        ),
        "\"/mnt/d/My Docs/a b/\""
    );
}
