use microtun_telnet::cli::{
    connect_error, failure_message, plan_connection, Cli, CliError, ConnectFailure,
};
use microtun_telnet::text::{decimal_text, is_before};

fn parse(arguments: &[&str]) -> Result<Cli, CliError> {
    Cli::try_parse_from(arguments.iter().map(|argument| argument.to_string()).collect())
}

fn parsed(arguments: &[&str]) -> Cli {
    match parse(arguments) {
        Ok(cli) => cli,
        Err(error) => panic!("{}", error.text),
    }
}

fn refused(arguments: &[&str]) -> CliError {
    match parse(arguments) {
        Ok(_) => panic!("accepted"),
        Err(error) => error,
    }
}

#[test]
fn cli_parses_direct_connection() {
    let cli = parsed(&["microtun-telnet", "100.64.0.3", "--port", "2323", "--timeout", "20"]);
    assert_eq!(cli.target, "100.64.0.3");
    assert_eq!(cli.port, Some(2323));
    assert_eq!(cli.timeout, 20);
}

#[test]
fn cli_parses_hostname_connection_target() {
    let cli = parsed(&["microtun-telnet", "device.local"]);
    assert_eq!(cli.target, "device.local");
}

#[test]
fn port_and_timeout_have_defaults() {
    let cli = parsed(&["microtun-telnet", "device.local"]);
    assert_eq!(cli.port, None);
    assert_eq!(cli.timeout, 10);
    assert_eq!(parsed(&["microtun-telnet", "-p", "24", "device.local"]).port, Some(24));
}

#[test]
fn command_lines_that_make_no_sense_are_refused() {
    for arguments in [
        &["microtun-telnet"][..],
        &["microtun-telnet", "a", "b"][..],
        &["microtun-telnet", "a", "--timeout", "0"][..],
        &["microtun-telnet", "a", "--port", "65536"][..],
        &["microtun-telnet", "a", "--port", "x"][..],
        &["microtun-telnet", "a", "--unknown"][..],
    ] {
        let error = refused(arguments);
        assert!(error.use_stderr);
        assert_eq!(error.exit_code(), 2);
        assert!(!error.text.is_empty());
    }
}

#[test]
fn help_and_version_are_answers() {
    let help = refused(&["microtun-telnet", "--help"]);
    assert!(!help.use_stderr);
    assert_eq!(help.exit_code(), 0);
    assert!(help.text.contains("Interactive Telnet client with YMODEM file upload capabilities"));
    assert!(help.text.contains("--timeout <SECONDS>"));
    assert!(help.text.contains("Usage: microtun-telnet [OPTIONS] <TARGET>"));
    let renamed = refused(&["/opt/bin/mt", "--help"]);
    assert!(renamed.text.contains("Usage: mt [OPTIONS] <TARGET>"));
    let version = refused(&["microtun-telnet", "--version"]);
    assert_eq!(version.text.trim(), "microtun-telnet 0.1.0");
}

#[test]
fn styled_texts_hold_the_plain_ones() {
    for arguments in [
        &["microtun-telnet"][..],
        &["microtun-telnet", "--help"][..],
        &["microtun-telnet", "a", "--timeout", "0"][..],
        &["microtun-telnet", "a", "--unknown"][..],
    ] {
        let error = refused(arguments);
        assert!(!error.text.contains('\u{1b}'));
        assert!(error.styled.contains("\u{1b}["));
        let mut plain = String::new();
        let mut escaped = false;
        for character in error.styled.chars() {
            if character == '\u{1b}' {
                escaped = true;
            } else if !escaped {
                plain.push(character);
            } else if character == 'm' {
                escaped = false;
            }
        }
        assert_eq!(plain, error.text);
    }
}

#[test]
fn connections_default_to_the_telnet_port() {
    let cli = parsed(&["microtun-telnet", "device.local", "--timeout", "3"]);
    let connection = plan_connection(cli, true, true).ok().unwrap();
    assert_eq!(connection.target, "device.local");
    assert_eq!(connection.port, 23);
    assert_eq!(connection.timeout, 3);
    assert_eq!(connection.announcement, "connecting to device.local on port 23");
}

#[test]
fn a_terminal_is_needed_on_both_sides() {
    for (stdin, stdout) in [(false, true), (true, false), (false, false)] {
        let cli = parsed(&["microtun-telnet", "device.local"]);
        assert_eq!(
            plan_connection(cli, stdin, stdout).err().unwrap(),
            "microtun-telnet requires an interactive terminal"
        );
    }
}

#[test]
fn failed_connections_name_the_target() {
    assert_eq!(
        connect_error("host", 23, ConnectFailure::Failed("refused".to_owned())),
        "connect to host:23: refused"
    );
    assert_eq!(
        connect_error("host", 2323, ConnectFailure::TimedOut),
        "connect to host:2323: timed out"
    );
    assert_eq!(
        connect_error("host", 0, ConnectFailure::NoDelay("bad".to_owned())),
        "set TCP_NODELAY for host:0: bad"
    );
    assert_eq!(failure_message("x"), "error: x");
}

#[test]
fn numbers_are_written_in_decimal() {
    for number in [0, 7, 10, 99, 100, 65535, 1234567890, u64::MAX] {
        assert_eq!(decimal_text(number), number.to_string());
    }
}

#[test]
fn texts_are_ordered_by_code_point() {
    let texts = ["", "a", "aa", "ab", "b", "B", "\u{e9}", "\u{10000}", "z\u{ffff}"];
    for left in texts {
        for right in texts {
            assert_eq!(is_before(left, right), left < right);
        }
    }
}
