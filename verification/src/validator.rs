//! Decisions of the validator's command-line front end: how a name/value
//! line is styled, and what a received signal asks the process to do.

use vstd::prelude::*;
use crate::text::push_char;

verus! {

/// The escape sequence that turns bold text on in a terminal.
pub open spec fn bold_on() -> Seq<char> {
    seq!['\u{1b}', '[', '1', 'm']
}

/// The escape sequence that resets the terminal's text style.
pub open spec fn style_reset() -> Seq<char> {
    seq!['\u{1b}', '[', '0', 'm']
}

/// Whether the terminal shows colors on stdout (`console::colors_enabled`).
/// It depends on the terminal and the environment; nothing is claimed.
#[verifier::external_body]
fn colors_enabled() -> bool {
    console::colors_enabled()
}

/// `console::style(text).bold().force_styling(on)` rendered with `Display`.
/// Claimed, from console's source: with styling forced on, the bold escape,
/// the text and the reset escape; forced off, the text alone.
#[verifier::external_body]
fn bold_when(text: &str, on: bool) -> (r: String)
    ensures
        r@ == if on {
            bold_on() + text@ + style_reset()
        } else {
            text@
        },
{
    console::style(text).bold().force_styling(on).to_string()
}

/// A `name value` line: the name in bold where `colors` is on, a space,
/// then the value.
pub fn format_name_value_with(name: &str, value: &str, colors: bool) -> (line: String)
    ensures
        line@ == (if colors {
            bold_on() + name@ + style_reset()
        } else {
            name@
        }) + seq![' '] + value@,
{
    let mut line = bold_when(name, colors);
    push_char(&mut line, ' ');
    line.append(value);
    line
}

/// A `name value` line for the terminal: the name in bold where the
/// terminal shows colors, a space, then the value.
pub fn format_name_value(name: &str, value: &str) -> (line: String)
    ensures
        line@ == name@ + seq![' '] + value@
            || line@ == bold_on() + name@ + style_reset() + seq![' '] + value@,
{
    let colors = colors_enabled();
    format_name_value_with(name, value, colors)
}

/// What the process does about a signal it received.
#[derive(Clone, Debug, PartialEq, Eq)]
pub enum SignalAction {
    /// Begin a graceful exit of the validator.
    Exit,
    /// Reopen the log file at this path (after log rotation).
    ReopenLog(String),
    /// Nothing: a reopen was asked for, but the process logs to no file.
    KeepLog,
    /// Nothing but a warning: the signal is not one the process handles.
    Unknown(i32),
}

/// What the signal handler does on `signal`, given the log file the process
/// writes to and the numbers of the terminate and reopen signals on this
/// platform (SIGTERM and SIGUSR1): terminate asks for an exit, reopen asks
/// to reopen the log file where there is one, and any other signal is
/// reported as unknown.
pub fn signal_action(logfile: &Option<String>, signal: i32, terminate: i32, reopen: i32) -> (a: SignalAction)
    ensures
        signal == terminate ==> a == SignalAction::Exit,
        signal != terminate && signal == reopen ==> match *logfile {
            Some(path) => a matches SignalAction::ReopenLog(p) && p@ == path@,
            None => a == SignalAction::KeepLog,
        },
        signal != terminate && signal != reopen ==> a == SignalAction::Unknown(signal),
{
    if signal == terminate {
        SignalAction::Exit
    } else if signal == reopen {
        match logfile {
            Some(path) => SignalAction::ReopenLog(path.clone()),
            None => SignalAction::KeepLog,
        }
    } else {
        SignalAction::Unknown(signal)
    }
}

} // verus!
