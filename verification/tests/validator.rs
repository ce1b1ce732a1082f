use rpc_types::validator::{format_name_value, signal_action, SignalAction};

#[test]
fn name_value_line() {
    let line = format_name_value("Identity:", "abc");
    assert!(line == "Identity: abc" || line == "\u{1b}[1mIdentity:\u{1b}[0m abc");
}

#[test]
fn terminate_signal_exits() {
    assert_eq!(signal_action(&Some("log".to_string()), 15, 15, 10), SignalAction::Exit);
    assert_eq!(signal_action(&None, 15, 15, 10), SignalAction::Exit);
}

#[test]
fn reopen_signal_reopens_log_file() {
    assert_eq!(
        signal_action(&Some("validator.log".to_string()), 10, 15, 10),
        SignalAction::ReopenLog("validator.log".to_string())
    );
    assert_eq!(signal_action(&None, 10, 15, 10), SignalAction::KeepLog);
}

#[test]
fn other_signals_are_unknown() {
    assert_eq!(signal_action(&None, 2, 15, 10), SignalAction::Unknown(2));
    assert_eq!(signal_action(&Some("x".to_string()), 1, 15, 10), SignalAction::Unknown(1));
}

#[test]
fn name_value_line_with_colors() {
    assert_eq!(
        rpc_types::validator::format_name_value_with("Identity:", "abc", true),
        "\u{1b}[1mIdentity:\u{1b}[0m abc"
    );
}

#[test]
fn name_value_line_without_colors() {
    assert_eq!(rpc_types::validator::format_name_value_with("Identity:", "abc", false), "Identity: abc");
    assert_eq!(rpc_types::validator::format_name_value_with("", "", false), " ");
}
