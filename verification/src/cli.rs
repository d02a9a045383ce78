//! The command line: which action the options ask for.

use vstd::prelude::*;
use vstd::string::*;

verus! {

/// What the program is asked to do.
#[derive(Debug, PartialEq, Eq)]
pub enum CliAction {
    /// Show the usage and leave, before any device is touched.
    Help,
    /// Measure; `verbose` says whether devices and samples are shown.
    Run { verbose: bool },
    /// An option that is not known: report it and leave.
    UnknownOption { option: String },
}

/// Whether an option asks for the usage.
pub open spec fn is_help_flag(option: Seq<char>) -> bool {
    option == "-h"@ || option == "--help"@
}

/// Whether an option switches the per-event output off.
pub open spec fn is_quiet_flag(option: Seq<char>) -> bool {
    option == "-n"@ || option == "--nonverbose"@
}

/// Whether the options before position `upto` are all quiet flags, so that
/// the scan reaches that position.
pub open spec fn reaches(options: Seq<String>, upto: int) -> bool {
    forall|j: int| 0 <= j < upto ==> is_quiet_flag(#[trigger] options[j]@)
}

/// Whether `action` is what `options` ask for. Options are read from the
/// left. The first one that is not a quiet flag decides: a help flag asks
/// for the usage, anything else is unknown. If all are quiet flags the
/// program runs, verbosely only when there was none.
pub open spec fn asks_for(options: Seq<String>, action: CliAction) -> bool {
    match action {
        CliAction::Help => exists|i: int|
            0 <= i < options.len() && reaches(options, i) && is_help_flag(#[trigger] options[i]@),
        CliAction::UnknownOption { option } => exists|i: int|
            0 <= i < options.len() && reaches(options, i) && !is_help_flag(#[trigger] options[i]@)
                && !is_quiet_flag(options[i]@) && option@ == options[i]@,
        CliAction::Run { verbose } => {
            &&& reaches(options, options.len() as int)
            &&& verbose == (options.len() == 0)
        },
    }
}

/// Whether two actions are the same, an unknown option being told by its
/// text.
pub open spec fn same_action(first: CliAction, second: CliAction) -> bool {
    match (first, second) {
        (CliAction::Help, CliAction::Help) => true,
        (CliAction::Run { verbose: a }, CliAction::Run { verbose: b }) => a == b,
        (CliAction::UnknownOption { option: a }, CliAction::UnknownOption { option: b }) => a@
            == b@,
        _ => false,
    }
}

/// No option is a help flag and a quiet flag at once.
pub proof fn lemma_flags_differ(option: Seq<char>)
    ensures
        !(is_help_flag(option) && is_quiet_flag(option)),
{
    reveal_strlit("-h");
    reveal_strlit("--help");
    reveal_strlit("-n");
    reveal_strlit("--nonverbose");
    if is_help_flag(option) && is_quiet_flag(option) {
        assert(option.len() == 2 || option.len() == 6);
        assert(option.len() == 2 || option.len() == 12);
        assert(option[1] == 'h');
        assert(option[1] == 'n');
    }
}

/// The position at which the scan that leads to `action` stops: that of the
/// option that decides, or the number of options if the program runs.
spec fn stop_of(options: Seq<String>, action: CliAction) -> int {
    match action {
        CliAction::Help => choose|i: int|
            0 <= i < options.len() && reaches(options, i) && is_help_flag(#[trigger] options[i]@),
        CliAction::UnknownOption { option } => choose|i: int|
            0 <= i < options.len() && reaches(options, i) && !is_help_flag(#[trigger] options[i]@)
                && !is_quiet_flag(options[i]@) && option@ == options[i]@,
        CliAction::Run { verbose } => options.len() as int,
    }
}

/// What holds at the position where the scan stops.
proof fn lemma_stop_of(options: Seq<String>, action: CliAction)
    requires
        asks_for(options, action),
    ensures
        0 <= stop_of(options, action) <= options.len(),
        reaches(options, stop_of(options, action)),
        action is Run <==> stop_of(options, action) == options.len(),
        action is Help ==> is_help_flag(options[stop_of(options, action)]@),
        action matches CliAction::UnknownOption { option } ==> !is_help_flag(
            options[stop_of(options, action)]@,
        ) && !is_quiet_flag(options[stop_of(options, action)]@) && option@
            == options[stop_of(options, action)]@,
{
}

/// The options decide the action: any two actions that the same options ask
/// for are the same.
pub proof fn lemma_action_is_determined(options: Seq<String>, first: CliAction, second: CliAction)
    requires
        asks_for(options, first),
        asks_for(options, second),
    ensures
        same_action(first, second),
{
    let stop_first = stop_of(options, first);
    let stop_second = stop_of(options, second);
    lemma_stop_of(options, first);
    lemma_stop_of(options, second);
    if stop_first < stop_second {
        assert(is_quiet_flag(options[stop_first]@));
        lemma_flags_differ(options[stop_first]@);
    } else if stop_second < stop_first {
        assert(is_quiet_flag(options[stop_second]@));
        lemma_flags_differ(options[stop_second]@);
    } else if stop_first < options.len() {
        lemma_flags_differ(options[stop_first]@);
    }
}

/// A help flag in front asks for the usage, whatever follows it.
pub proof fn lemma_help_in_front_wins(options: Seq<String>, action: CliAction)
    requires
        options.len() > 0,
        is_help_flag(options[0]@),
        asks_for(options, action),
    ensures
        action is Help,
{
    assert(reaches(options, 0));
    assert(asks_for(options, CliAction::Help));
    lemma_action_is_determined(options, action, CliAction::Help);
}

/// The line that reports an unknown option.
pub open spec fn unknown_option_text(option: Seq<char>) -> Seq<char> {
    "Unknown option: "@ + option
}

/// The first line of the usage, for a program started as `program`.
pub open spec fn usage_text(program: Seq<char>) -> Seq<char> {
    "Usage: "@ + program + " [-n|-h]"@
}

/// Reads the options that follow the program's name.
pub fn parse_args(options: &Vec<String>) -> (action: CliAction)
    ensures
        asks_for(options@, action),
{
    let help_short = String::from_str("-h");
    let help_long = String::from_str("--help");
    let quiet_short = String::from_str("-n");
    let quiet_long = String::from_str("--nonverbose");
    let mut i: usize = 0;
    while i < options.len()
        invariant
            i <= options.len(),
            reaches(options@, i as int),
            help_short@ == "-h"@,
            help_long@ == "--help"@,
            quiet_short@ == "-n"@,
            quiet_long@ == "--nonverbose"@,
        decreases options.len() - i,
    {
        let option = &options[i];
        if *option == help_short || *option == help_long {
            return CliAction::Help;
        } else if *option == quiet_short || *option == quiet_long {
            i = i + 1;
        } else {
            return CliAction::UnknownOption { option: option.clone() };
        }
    }
    CliAction::Run { verbose: options.len() == 0 }
}

/// Builds the line that reports an unknown option.
pub fn unknown_option_line(option: &str) -> (line: String)
    ensures
        line@ == unknown_option_text(option@),
{
    let mut line = String::from_str("Unknown option: ");
    line.append(option);
    line
}

/// Builds the usage: its first line names the program, the others list the
/// options.
pub fn usage_lines(program: &str) -> (lines: Vec<String>)
    ensures
        lines@.len() == 3,
        lines@[0]@ == usage_text(program@),
        lines@[1]@ == "-n, --nonverbose    nonverbose mode"@,
        lines@[2]@ == "-h, --help          show this help"@,
{
    let mut first = String::from_str("Usage: ");
    first.append(program);
    first.append(" [-n|-h]");
    let mut lines: Vec<String> = Vec::new();
    lines.push(first);
    lines.push(String::from_str("-n, --nonverbose    nonverbose mode"));
    lines.push(String::from_str("-h, --help          show this help"));
    lines
}

} // verus!
