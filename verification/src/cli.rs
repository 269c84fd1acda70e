//! The command line, and the connection it asks for.

use crate::text::{decimal_text, join2, join3};
use clap::builder::ValueParserFactory;
use clap::{Arg, Command};
use vstd::prelude::*;

verus! {

/// The TCP port of Telnet.
pub const DEFAULT_TELNET_PORT: u16 = 23;

/// What the command line asks for.
pub struct Cli {
    /// Device IP address or hostname.
    pub target: String,
    /// TCP port, where one is given.
    pub port: Option<u16>,
    /// Telnet connect and YMODEM transfer timeout in seconds.
    pub timeout: u64,
}

/// A command line that asks for no connection: it is not understood, or asks
/// for help or the version.
pub struct CliError {
    /// What is to be shown.
    pub text: String,
    /// The same with the escape sequences that style it on a terminal.
    pub styled: String,
    /// Whether it is an error rather than an answer.
    pub use_stderr: bool,
}

impl CliError {
    /// The program's exit code.
    pub fn exit_code(&self) -> (code: u8)
        ensures
            code == (if self.use_stderr {
                2u8
            } else {
                0u8
            }),
    {
        if self.use_stderr {
            2
        } else {
            0
        }
    }
}

/// What `clap` makes of the arguments, the program's name first, under a
/// declaration given by its texts, whether no arguments ask for help, whether
/// the target is required, the short name of its port option and the least
/// number of seconds: the target, the port and the seconds; or what it
/// shows instead, plain and styled, and whether that is an error.
pub uninterp spec fn clap_outcome(
    texts: Seq<Seq<char>>,
    help_if_empty: bool,
    target_required: bool,
    port_short: char,
    least: u64,
    arguments: Seq<Seq<char>>,
) -> Result<(Seq<char>, Option<u16>, u64), (Seq<char>, Seq<char>, bool)>;

/// The views of a list of texts.
pub open spec fn texts(arguments: Seq<String>) -> Seq<Seq<char>> {
    arguments.map_values(|argument: String| argument@)
}

/// Whether the name by which the program was called, read as a path, ends in
/// the same file name on every system: it holds no backslash and no colon.
pub open spec fn has_portable_name(arguments: Seq<Seq<char>>) -> bool {
    arguments.len() > 0 ==> !arguments[0].contains('\\') && !arguments[0].contains(':')
}

/// Declares a command line to `clap` and calls
/// `Command::try_get_matches_from`: one positional argument, an option for a
/// port, and an option for a number of seconds with a default and a least
/// number. What comes of it is named, not spelled out, but for one thing that
/// the value parser enforces: the seconds are no less than the least number.
/// What is shown is given twice: as `Error::to_string` has it, and as
/// `Error::render` does with its styles as ANSI escape sequences. It holds the
/// file name in the program's path, which systems that separate paths
/// differently find differently; of the texts for such a path nothing is
/// claimed.
/// `clap` panics on contradictory declarations, so the names, the default and
/// the bound are held to the ones of this program.
#[verifier::external_body]
fn clap_matches(
    program: &'static str,
    version: &'static str,
    about: &'static str,
    help_if_empty: bool,
    target: &'static str,
    target_help: &'static str,
    target_required: bool,
    port: &'static str,
    port_long: &'static str,
    port_short: char,
    port_help: &'static str,
    seconds: &'static str,
    seconds_long: &'static str,
    seconds_help: &'static str,
    default: &'static str,
    least: u64,
    arguments: Vec<String>,
) -> (result: Result<(String, Option<u16>, u64), (String, String, bool)>)
    requires
        target@ == "TARGET"@,
        port@ == "PORT"@,
        port_long@ == "port"@,
        port_short == 'p',
        seconds@ == "SECONDS"@,
        seconds_long@ == "timeout"@,
        default@ == "10"@,
        least == 1,
    ensures
        match clap_outcome(
            seq![
                program@,
                version@,
                about@,
                target@,
                target_help@,
                port@,
                port_long@,
                port_help@,
                seconds@,
                seconds_long@,
                seconds_help@,
                default@,
            ],
            help_if_empty,
            target_required,
            port_short,
            least,
            texts(arguments@),
        ) {
            Ok(values) => result matches Ok((target, port, seconds)) && target@ == values.0
                && port == values.1 && seconds == values.2,
            Err(report) => result matches Err((text, styled, use_stderr)) && use_stderr == report.2
                && (has_portable_name(texts(arguments@)) ==> text@ == report.0 && styled@
                == report.1),
        },
        result matches Ok((_, _, seconds)) ==> seconds >= least,
{
    let mut matches = Command::new(program).arg_required_else_help(help_if_empty)
        .version(version).about(about)
        .arg(Arg::new(target).help(target_help).required(target_required))
        .arg(Arg::new(port).short(port_short).long(port_long).help(port_help)
            .value_parser(u16::value_parser()))
        .arg(Arg::new(seconds).long(seconds_long).help(seconds_help).default_value(default)
            .value_parser(u64::value_parser().range(least..)))
        .try_get_matches_from(arguments)
        .map_err(|err| (err.to_string(), err.render().ansi().to_string(), err.use_stderr()))?;
    Ok((
        matches.remove_one(target).unwrap_or_default(),
        matches.remove_one(port),
        matches.remove_one(seconds).unwrap_or_default(),
    ))
}

/// What `clap` makes of the arguments under this program's declaration.
pub open spec fn cli_outcome(arguments: Seq<Seq<char>>) -> Result<
    (Seq<char>, Option<u16>, u64),
    (Seq<char>, Seq<char>, bool),
> {
    clap_outcome(
        seq![
            "microtun-telnet"@,
            "0.1.0"@,
            "Interactive Telnet client with YMODEM file upload capabilities"@,
            "TARGET"@,
            "Device IP address or hostname"@,
            "PORT"@,
            "port"@,
            "TCP port. Defaults to 23"@,
            "SECONDS"@,
            "timeout"@,
            "Telnet connect and YMODEM transfer timeout in seconds"@,
            "10"@,
        ],
        true,
        true,
        'p',
        1,
        arguments,
    )
}

impl Cli {
    /// Reads a command line, the program's name first. The text of an error
    /// holds that name's last part, and so depends on how the system separates
    /// paths where the name holds a backslash or a colon.
    pub fn try_parse_from(arguments: Vec<String>) -> (result: Result<Cli, CliError>)
        ensures
            match cli_outcome(texts(arguments@)) {
                Ok(values) => {
                    &&& result matches Ok(cli)
                    &&& cli.target@ == values.0
                    &&& cli.port == values.1
                    &&& cli.timeout == values.2
                    &&& cli.timeout >= 1
                },
                Err(report) => {
                    &&& result matches Err(error)
                    &&& has_portable_name(texts(arguments@)) ==> error.text@ == report.0
                        && error.styled@ == report.1
                    &&& error.use_stderr == report.2
                },
            },
    {
        let outcome = clap_matches(
            "microtun-telnet",
            "0.1.0",
            "Interactive Telnet client with YMODEM file upload capabilities",
            true,
            "TARGET",
            "Device IP address or hostname",
            true,
            "PORT",
            "port",
            'p',
            "TCP port. Defaults to 23",
            "SECONDS",
            "timeout",
            "Telnet connect and YMODEM transfer timeout in seconds",
            "10",
            1,
            arguments,
        );
        match outcome {
            Ok((target, port, timeout)) => Ok(Cli { target, port, timeout }),
            Err((text, styled, use_stderr)) => Err(CliError { text, styled, use_stderr }),
        }
    }
}

// ---------------------------------------------------------------------------
// Connecting
// ---------------------------------------------------------------------------

/// A connection to make.
pub struct Connection {
    pub target: String,
    pub port: u16,
    pub timeout: u64,
    /// What is said before it is made.
    pub announcement: String,
}

/// What a command line asks for, with or without a terminal on either side.
pub open spec fn plans(
    cli: Cli,
    stdin_is_terminal: bool,
    stdout_is_terminal: bool,
    result: Result<Connection, String>,
) -> bool {
    if stdin_is_terminal && stdout_is_terminal {
        &&& result matches Ok(connection)
        &&& connection.target == cli.target
        &&& connection.port == (match cli.port {
            Some(port) => port,
            None => DEFAULT_TELNET_PORT,
        })
        &&& connection.timeout == cli.timeout
        &&& connection.announcement@ == "connecting to "@ + cli.target@ + " on port "@
            + crate::text::decimal(connection.port as nat)
    } else {
        result matches Err(error) && error@ == "microtun-telnet requires an interactive terminal"@
    }
}

/// The connection that a command line asks for. There is none without an
/// interactive terminal on both sides; the port is Telnet's unless given.
pub fn plan_connection(cli: Cli, stdin_is_terminal: bool, stdout_is_terminal: bool) -> (result:
    Result<Connection, String>)
    ensures
        plans(cli, stdin_is_terminal, stdout_is_terminal, result),
{
    if !stdin_is_terminal || !stdout_is_terminal {
        return Err("microtun-telnet requires an interactive terminal".to_owned());
    }
    let port: u16 = match cli.port {
        Some(port) => port,
        None => DEFAULT_TELNET_PORT,
    };
    let mut announcement = join3("connecting to ", cli.target.as_str(), " on port ");
    let digits = decimal_text(port as u64);
    announcement.append(digits.as_str());
    Ok(Connection { target: cli.target, port, timeout: cli.timeout, announcement })
}

/// Why no connection was made.
pub enum ConnectFailure {
    /// The system reported an error.
    Failed(String),
    /// Nothing came of it in time.
    TimedOut,
    /// The connection could not be set up for interactive use.
    NoDelay(String),
}

/// A target as it is shown: with its port behind a colon.
pub open spec fn address(target: Seq<char>, port: u16) -> Seq<char> {
    target + ":"@ + crate::text::decimal(port as nat)
}

/// What the user is told of a connection that was not made.
pub open spec fn failure_text(target: Seq<char>, port: u16, failure: ConnectFailure) -> Seq<char> {
    match failure {
        ConnectFailure::Failed(error) => "connect to "@ + address(target, port) + ": "@ + error@,
        ConnectFailure::TimedOut => "connect to "@ + address(target, port) + ": timed out"@,
        ConnectFailure::NoDelay(error) => "set TCP_NODELAY for "@ + address(target, port) + ": "@
            + error@,
    }
}

/// What the user is told of a connection that was not made.
pub fn connect_error(target: &str, port: u16, failure: ConnectFailure) -> (text: String)
    ensures
        text@ == failure_text(target@, port, failure),
{
    let digits = decimal_text(port as u64);
    let shown = join3(target, ":", digits.as_str());
    match failure {
        ConnectFailure::Failed(error) => {
            let mut text = join3("connect to ", shown.as_str(), ": ");
            text.append(error.as_str());
            text
        },
        ConnectFailure::TimedOut => join3("connect to ", shown.as_str(), ": timed out"),
        ConnectFailure::NoDelay(error) => {
            let mut text = join3("set TCP_NODELAY for ", shown.as_str(), ": ");
            text.append(error.as_str());
            text
        },
    }
}

/// What the user is told of a program that failed.
pub fn failure_message(error: &str) -> (text: String)
    ensures
        text@ == "error: "@ + error@,
{
    join2("error: ", error)
}

// ---------------------------------------------------------------------------
// Laws
// ---------------------------------------------------------------------------

/// The command line as it is declared: a target that must be given, a port
/// with the short name `p`, and a timeout of at least a second, which is ten
/// where it is not given. Without arguments the help is shown.
pub proof fn law_command_line_is_declared(arguments: Seq<Seq<char>>)
    ensures
        ({
            let names = seq!["microtun-telnet"@, "0.1.0"@];
            let about = seq!["Interactive Telnet client with YMODEM file upload capabilities"@];
            let target = seq!["TARGET"@, "Device IP address or hostname"@];
            let port = seq!["PORT"@, "port"@, "TCP port. Defaults to 23"@];
            let timeout = seq![
                "SECONDS"@,
                "timeout"@,
                "Telnet connect and YMODEM transfer timeout in seconds"@,
                "10"@,
            ];
            cli_outcome(arguments) == clap_outcome(
                names + about + target + port + timeout,
                true,
                true,
                'p',
                1,
                arguments,
            )
        }),
{
    let names = seq!["microtun-telnet"@, "0.1.0"@];
    let about = seq!["Interactive Telnet client with YMODEM file upload capabilities"@];
    let target = seq!["TARGET"@, "Device IP address or hostname"@];
    let port = seq!["PORT"@, "port"@, "TCP port. Defaults to 23"@];
    let timeout = seq![
        "SECONDS"@,
        "timeout"@,
        "Telnet connect and YMODEM transfer timeout in seconds"@,
        "10"@,
    ];
    assert(names + about + target + port + timeout == seq![
        "microtun-telnet"@,
        "0.1.0"@,
        "Interactive Telnet client with YMODEM file upload capabilities"@,
        "TARGET"@,
        "Device IP address or hostname"@,
        "PORT"@,
        "port"@,
        "TCP port. Defaults to 23"@,
        "SECONDS"@,
        "timeout"@,
        "Telnet connect and YMODEM transfer timeout in seconds"@,
        "10"@,
    ]);
}

/// A connection is planned exactly where there is a terminal on both sides. It
/// goes to the target that was given, for as long as was given, and to the
/// port that was given or, without one, to port 23; what is said before names
/// that port.
pub proof fn law_connections_are_made_as_asked(
    cli: Cli,
    stdin_is_terminal: bool,
    stdout_is_terminal: bool,
    result: Result<Connection, String>,
)
    requires
        plans(cli, stdin_is_terminal, stdout_is_terminal, result),
    ensures
        result is Ok <==> stdin_is_terminal && stdout_is_terminal,
        result matches Ok(connection) ==> {
            &&& connection.target@ == cli.target@
            &&& connection.timeout == cli.timeout
            &&& cli.port is None ==> connection.port == 23
            &&& cli.port matches Some(port) ==> connection.port == port
            &&& "connecting to "@ + cli.target@ + " on port "@ + crate::text::decimal(
                connection.port as nat,
            ) == connection.announcement@
        },
        result matches Err(error) ==> error@
            == "microtun-telnet requires an interactive terminal"@,
{
}

/// Every failure to connect names the target and the port, and ends in what
/// the system reported where it reported anything.
pub proof fn law_failures_name_the_target(target: Seq<char>, port: u16, failure: ConnectFailure)
    ensures
        ({
            let shown = target + ":"@ + crate::text::decimal(port as nat);
            failure_text(target, port, failure) == match failure {
                ConnectFailure::Failed(error) => "connect to "@ + shown + ": "@ + error@,
                ConnectFailure::TimedOut => "connect to "@ + shown + ": timed out"@,
                ConnectFailure::NoDelay(error) => "set TCP_NODELAY for "@ + shown + ": "@ + error@,
            }
        }),
{
}

} // verus!
