use evhz::cli::{parse_args, unknown_option_line, usage_lines, CliAction};

fn parse(options: &[&str]) -> CliAction {
    let owned: Vec<String> = options.iter().map(|s| s.to_string()).collect();
    parse_args(&owned)
}

#[test]
fn help_flag_asks_for_usage() {
    assert_eq!(parse(&["--help"]), CliAction::Help);
    assert_eq!(parse(&["-h"]), CliAction::Help);
}

#[test]
fn no_option_runs_verbosely() {
    assert_eq!(parse(&[]), CliAction::Run { verbose: true });
}

#[test]
fn quiet_flag_switches_output_off() {
    assert_eq!(parse(&["-n"]), CliAction::Run { verbose: false });
    assert_eq!(parse(&["--nonverbose"]), CliAction::Run { verbose: false });
    assert_eq!(parse(&["-n", "--nonverbose", "-n"]), CliAction::Run { verbose: false });
}

#[test]
fn unknown_option_is_reported() {
    assert_eq!(
        parse(&["--fast"]),
        CliAction::UnknownOption { option: String::from("--fast") }
    );
    assert_eq!(parse(&[""]), CliAction::UnknownOption { option: String::new() });
    assert_eq!(parse(&["-H"]), CliAction::UnknownOption { option: String::from("-H") });
    assert_eq!(
        parse(&["--help "]),
        CliAction::UnknownOption { option: String::from("--help ") }
    );
}

#[test]
fn first_deciding_option_wins() {
    assert_eq!(parse(&["-n", "--help"]), CliAction::Help);
    assert_eq!(parse(&["--help", "--bogus"]), CliAction::Help);
    assert_eq!(
        parse(&["--bogus", "--help"]),
        CliAction::UnknownOption { option: String::from("--bogus") }
    );
    assert_eq!(
        parse(&["-n", "-x", "-h", "-y"]),
        CliAction::UnknownOption { option: String::from("-x") }
    );
    assert_eq!(parse(&["-h", "-n"]), CliAction::Help);
}

#[test]
fn unknown_option_line_text() {
    assert_eq!(unknown_option_line("--fast"), "Unknown option: --fast");
    assert_eq!(unknown_option_line(""), "Unknown option: ");
}

#[test]
fn usage_names_the_program() {
    let lines = usage_lines("evhz");
    assert_eq!(
        lines,
        vec![
            String::from("Usage: evhz [-n|-h]"),
            String::from("-n, --nonverbose    nonverbose mode"),
            String::from("-h, --help          show this help"),
        ]
    );
}
