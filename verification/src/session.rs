//! The interactive session: modes, commands, the picker and uploads.
//!
//! The program around this module waits for events, hands each to the session
//! and performs the action that comes back.

use crate::file_picker::{FilePicker, PickerAction};
use crate::keymap::{
    is_command_key, key_to_telnet_bytes, KeyCode, KeyEvent, KeyEventKind, COMMAND_KEY,
};
use crate::listing::DirectoryChild;
use crate::telnet::NetworkRead;
use crate::text::{decimal_text, join2, join3};
use vstd::prelude::*;

verus! {

/// How a session ended.
#[derive(Clone, Copy, Debug, PartialEq, Eq, Structural)]
pub enum TuiEnd {
    Quit,
    RemoteClosed,
}

/// What keys are taken for.
#[derive(Clone, Copy, Debug, PartialEq, Eq, Structural)]
pub enum TuiMode {
    /// Input for the peer.
    Session,
    /// The key that follows the command prefix.
    CommandPrefix,
    /// A choice from the command summary.
    CommandSummary,
    /// Navigation in the file picker.
    FilePicker,
}

/// How far an upload has got.
pub struct TransferProgress {
    pub name: String,
    pub sent: u64,
    pub total: u64,
}

/// A session.
pub struct TuiState<P> {
    pub target: String,
    pub port: u16,
    pub mode: TuiMode,
    pub file_picker: Option<FilePicker<P>>,
    pub status: String,
    pub transfer: Option<TransferProgress>,
}

/// What the terminal reports.
pub enum Event {
    Key(KeyEvent),
    Resize,
    Other,
}

/// What an upload reports.
pub enum UploadEvent {
    /// The peer sent a byte that is not part of the transfer.
    Output(u8),
    Progress { sent: u64, total: u64 },
}

/// What a session asks for.
pub enum Action<P> {
    /// Nothing.
    Continue,
    /// Send these bytes to the peer.
    Send(Vec<u8>),
    /// Show these bytes in the remote terminal.
    Show(Vec<u8>),
    /// Fit the remote terminal to the screen.
    Resize,
    /// Read the current directory and hand the result to `open_file_picker`.
    OpenPicker,
    /// Read the picker's directory and hand the result to `directory_read`.
    ReadDirectory,
    /// Send this file.
    Upload(P),
    /// End the session.
    End(TuiEnd),
}

/// A directory that was read: where it is, what its parent is, and what it
/// holds.
pub struct Directory<P> {
    pub cwd: P,
    pub parent: Option<P>,
    pub children: Vec<DirectoryChild<P>>,
}

// ---------------------------------------------------------------------------
// Commands
// ---------------------------------------------------------------------------

/// What a key asks for after the command prefix, or in the command summary.
#[derive(Clone, Copy, Debug, PartialEq, Eq, Structural)]
pub enum Command {
    /// Send a literal prefix byte to the peer.
    Literal,
    /// Show the command summary.
    Summary,
    /// Open the file picker.
    Upload,
    /// Clear the remote terminal.
    Clear,
    /// End the session.
    Quit,
    /// Go back to the session.
    Leave,
    /// Nothing that is known.
    Unknown,
}

/// Whether a key is a letter, in either case and whatever is held.
pub open spec fn is_letter(code: KeyCode, lower: char, upper: char) -> bool {
    code == KeyCode::Char(lower) || code == KeyCode::Char(upper)
}

/// What a key asks for after the command prefix.
pub open spec fn prefix_command(key: KeyEvent) -> Command {
    if crate::keymap::is_prefix(key) {
        Command::Literal
    } else if is_letter(key.code, 'z', 'Z') {
        Command::Summary
    } else if is_letter(key.code, 's', 'S') {
        Command::Upload
    } else if is_letter(key.code, 'c', 'C') {
        Command::Clear
    } else if is_letter(key.code, 'q', 'Q') || is_letter(key.code, 'x', 'X') {
        Command::Quit
    } else if key.code is Esc || key.code is Enter {
        Command::Leave
    } else {
        Command::Unknown
    }
}

/// What a key asks for in the command summary.
pub open spec fn summary_command(key: KeyEvent) -> Command {
    if key.code is Esc || key.code is Enter {
        Command::Leave
    } else if is_letter(key.code, 's', 'S') {
        Command::Upload
    } else if is_letter(key.code, 'c', 'C') {
        Command::Clear
    } else if is_letter(key.code, 'q', 'Q') {
        Command::Quit
    } else {
        Command::Unknown
    }
}

/// What clears the remote terminal: `ESC [ 2 J`, then `ESC [ H`.
pub open spec fn clear_sequence() -> Seq<u8> {
    seq![0x1b, '[' as u8, '2' as u8, 'J' as u8, 0x1b, '[' as u8, 'H' as u8]
}

/// What a key asks for after the command prefix.
pub fn command_after_prefix(key: KeyEvent) -> (command: Command)
    ensures
        command == prefix_command(key),
{
    if is_command_key(key) {
        return Command::Literal;
    }
    match key.code {
        KeyCode::Char('z') | KeyCode::Char('Z') => Command::Summary,
        KeyCode::Char('s') | KeyCode::Char('S') => Command::Upload,
        KeyCode::Char('c') | KeyCode::Char('C') => Command::Clear,
        KeyCode::Char('q') | KeyCode::Char('Q') => Command::Quit,
        KeyCode::Char('x') | KeyCode::Char('X') => Command::Quit,
        KeyCode::Esc | KeyCode::Enter => Command::Leave,
        _ => Command::Unknown,
    }
}

/// What a key asks for in the command summary.
pub fn command_in_summary(key: KeyEvent) -> (command: Command)
    ensures
        command == summary_command(key),
{
    match key.code {
        KeyCode::Esc | KeyCode::Enter => Command::Leave,
        KeyCode::Char('s') | KeyCode::Char('S') => Command::Upload,
        KeyCode::Char('c') | KeyCode::Char('C') => Command::Clear,
        KeyCode::Char('q') | KeyCode::Char('Q') => Command::Quit,
        _ => Command::Unknown,
    }
}

fn clear_bytes() -> (bytes: Vec<u8>)
    ensures
        bytes@ == clear_sequence(),
{
    vec![0x1b, '[' as u8, '2' as u8, 'J' as u8, 0x1b, '[' as u8, 'H' as u8]
}

// ---------------------------------------------------------------------------
// Steps
// ---------------------------------------------------------------------------

/// Two states that differ in nothing but, perhaps, mode and status.
pub open spec fn same_but_mode_and_status<P>(before: TuiState<P>, after: TuiState<P>) -> bool {
    &&& after.target == before.target
    &&& after.port == before.port
    &&& after.file_picker == before.file_picker
    &&& after.transfer == before.transfer
}

/// A state whose mode became `mode`, with all else as it was.
pub open spec fn mode_became<P>(before: TuiState<P>, after: TuiState<P>, mode: TuiMode) -> bool {
    &&& same_but_mode_and_status(before, after)
    &&& after.mode == mode
    &&& after.status == before.status
}

/// A state that went back to the session with a new status.
pub open spec fn left_with_status<P>(
    before: TuiState<P>,
    after: TuiState<P>,
    status: Seq<char>,
) -> bool {
    &&& same_but_mode_and_status(before, after)
    &&& after.mode is Session
    &&& after.status@ == status
}

/// What a command does.
pub open spec fn command_step<P>(
    before: TuiState<P>,
    command: Command,
    after: TuiState<P>,
    action: Action<P>,
) -> bool {
    match command {
        Command::Literal => {
            &&& left_with_status(before, after, "Sent Ctrl-A to remote"@)
            &&& action matches Action::Send(bytes)
            &&& bytes@ == seq![COMMAND_KEY]
        },
        Command::Summary => {
            &&& mode_became(before, after, TuiMode::CommandSummary)
            &&& action is Continue
        },
        Command::Upload => {
            &&& after == before
            &&& action is OpenPicker
        },
        Command::Clear => {
            &&& left_with_status(before, after, "Screen cleared"@)
            &&& action matches Action::Show(bytes)
            &&& bytes@ == clear_sequence()
        },
        Command::Quit => {
            &&& after == before
            &&& action == Action::<P>::End(TuiEnd::Quit)
        },
        Command::Leave => {
            &&& mode_became(before, after, TuiMode::Session)
            &&& action is Continue
        },
        Command::Unknown => {
            &&& action is Continue
            &&& if before.mode is CommandSummary {
                after == before
            } else {
                left_with_status(before, after, "Unknown command; Ctrl-A Z for help"@)
            }
        },
    }
}

/// What the picker's answer to a key does to the session.
pub open spec fn picker_answer<P>(
    before: TuiState<P>,
    picker: FilePicker<P>,
    answer: PickerAction<P>,
    after: TuiState<P>,
    action: Action<P>,
) -> bool {
    &&& after.target == before.target
    &&& after.port == before.port
    &&& after.status == before.status
    &&& after.transfer == before.transfer
    &&& match answer {
        PickerAction::Nothing => {
            &&& action is Continue
            &&& after.mode == before.mode
            &&& after.file_picker == Some(picker)
        },
        PickerAction::Read => {
            &&& action is ReadDirectory
            &&& after.mode == before.mode
            &&& after.file_picker == Some(picker)
        },
        PickerAction::Cancel => {
            &&& action is Continue
            &&& after.mode is Session
            &&& after.file_picker is None
        },
        PickerAction::Upload(path) => {
            &&& action == Action::Upload(path)
            &&& after.mode is Session
            &&& after.file_picker is None
        },
    }
}

/// What a key press does to a session, and what it asks for. `parent` is the
/// parent of the picker's directory, if there is a picker and a parent.
pub open spec fn key_step<P: Clone>(
    before: TuiState<P>,
    key: KeyEvent,
    parent: Option<P>,
    after: TuiState<P>,
    action: Action<P>,
) -> bool {
    match before.mode {
        TuiMode::Session => if crate::keymap::is_prefix(key) {
            &&& mode_became(before, after, TuiMode::CommandPrefix)
            &&& action is Continue
        } else {
            &&& after == before
            &&& match crate::keymap::key_bytes(key) {
                Some(bytes) => action matches Action::Send(sent) && sent@ == bytes,
                None => action is Continue,
            }
        },
        TuiMode::CommandPrefix => command_step(before, prefix_command(key), after, action),
        TuiMode::CommandSummary => command_step(before, summary_command(key), after, action),
        TuiMode::FilePicker => match before.file_picker {
            Some(picker) => exists|next: FilePicker<P>, answer: PickerAction<P>|
                {
                    &&& #[trigger] crate::file_picker::picker_step(
                        picker,
                        key,
                        parent,
                        next,
                        answer,
                    )
                    &&& picker_answer(before, next, answer, after, action)
                },
            None => {
                &&& mode_became(before, after, TuiMode::Session)
                &&& action is Continue
            },
        },
    }
}

/// What a terminal event does to a session: only keys that go down or repeat
/// count as keys.
pub open spec fn event_step<P: Clone>(
    before: TuiState<P>,
    event: Event,
    parent: Option<P>,
    after: TuiState<P>,
    action: Action<P>,
) -> bool {
    match event {
        Event::Key(key) => if key.kind is Release {
            after == before && action is Continue
        } else {
            key_step(before, key, parent, after, action)
        },
        Event::Resize => after == before && action is Resize,
        Event::Other => after == before && action is Continue,
    }
}

/// What opening the picker does, with the directory that was read for it or
/// why it could not be read.
pub open spec fn picker_opened<P>(
    before: TuiState<P>,
    outcome: Result<Directory<P>, String>,
    after: TuiState<P>,
) -> bool {
    &&& after.target == before.target
    &&& after.port == before.port
    &&& after.transfer == before.transfer
    &&& match outcome {
        Ok(directory) => {
            &&& after.mode is FilePicker
            &&& after.status == before.status
            &&& after.file_picker matches Some(picker)
            &&& picker.cwd == directory.cwd
            &&& crate::listing::is_listing(
                picker.shown(),
                directory.parent,
                directory.children@,
            )
            &&& picker.selected == 0
            &&& after.well_formed()
        },
        Err(error) => {
            &&& left_with_status(before, after, "File picker: "@ + error@)
            &&& before.file_picker is None ==> after.well_formed()
        },
    }
}

/// What reading the picker's directory does, with what it holds or why it could
/// not be read; `parent` is the directory's parent, if it has one.
pub open spec fn directory_step<P>(
    before: TuiState<P>,
    parent: Option<P>,
    outcome: Result<Vec<DirectoryChild<P>>, String>,
    after: TuiState<P>,
) -> bool {
    &&& after.target == before.target
    &&& after.port == before.port
    &&& after.mode == before.mode
    &&& after.transfer == before.transfer
    &&& match (before.file_picker, outcome) {
        (Some(old_picker), Ok(children)) => {
            &&& after.status == before.status
            &&& after.file_picker matches Some(picker)
            &&& picker.cwd == old_picker.cwd
            &&& crate::listing::is_listing(picker.shown(), parent, children@)
            &&& picker.selected == crate::file_picker::clamped(
                old_picker.selected as int,
                picker.entries@.len(),
            )
        },
        (Some(old_picker), Err(error)) => {
            &&& after.status@ == "File picker: "@ + error@
            &&& after.file_picker == Some(old_picker)
        },
        (None, _) => after == before,
    }
}

/// What the network brought asks for.
pub open spec fn network_step<P>(read: NetworkRead, action: Action<P>) -> bool {
    match read {
        NetworkRead::Data(data) => action == Action::<P>::Show(data),
        NetworkRead::Idle => action is Continue,
        NetworkRead::Closed => action == Action::<P>::End(TuiEnd::RemoteClosed),
    }
}

/// Two states that differ in nothing but, perhaps, status and transfer.
pub open spec fn same_but_status_and_transfer<P>(before: TuiState<P>, after: TuiState<P>) -> bool {
    &&& after.target == before.target
    &&& after.port == before.port
    &&& after.mode == before.mode
    &&& after.file_picker == before.file_picker
}

/// What beginning the upload of the file `name` does; `path` is how its path
/// is shown.
pub open spec fn upload_began<P>(
    before: TuiState<P>,
    name: Seq<char>,
    path: Seq<char>,
    after: TuiState<P>,
) -> bool {
    &&& same_but_status_and_transfer(before, after)
    &&& after.status@ == "Sending "@ + path
    &&& after.transfer matches Some(progress)
    &&& progress.name@ == name
    &&& progress.sent == 0
    &&& progress.total == 0
}

/// What a report of the upload of the file `name` does, and what it asks for.
pub open spec fn upload_step<P>(
    before: TuiState<P>,
    name: Seq<char>,
    event: UploadEvent,
    after: TuiState<P>,
    action: Action<P>,
) -> bool {
    &&& same_but_status_and_transfer(before, after)
    &&& after.status == before.status
    &&& match event {
        UploadEvent::Output(byte) => {
            &&& action matches Action::Show(bytes)
            &&& bytes@ == seq![byte]
            &&& after.transfer == before.transfer
        },
        UploadEvent::Progress { sent, total } => {
            &&& action is Continue
            &&& after.transfer matches Some(progress)
            &&& progress.name@ == name
            &&& progress.sent == sent
            &&& progress.total == total
        },
    }
}

/// What ending an upload does.
pub open spec fn upload_ended<P>(
    before: TuiState<P>,
    outcome: Result<u64, String>,
    after: TuiState<P>,
) -> bool {
    &&& same_but_status_and_transfer(before, after)
    &&& after.transfer is None
    &&& after.status@ == (match outcome {
        Ok(size) => "YMODEM complete: "@ + crate::text::decimal(size as nat) + " bytes"@,
        Err(error) => "YMODEM failed: "@ + error@,
    })
}

impl<P> TuiState<P> {
    /// The picker is open exactly in its mode, with its cursor on the list.
    pub open spec fn well_formed(self) -> bool {
        &&& self.mode is FilePicker <==> self.file_picker is Some
        &&& self.file_picker matches Some(picker) ==> picker.well_formed()
    }

    /// A session that has just connected.
    pub fn new(target: &str, port: u16) -> (state: Self)
        ensures
            state.target@ == target@,
            state.port == port,
            state.mode is Session,
            state.file_picker is None,
            state.status@ == "Connected"@,
            state.transfer is None,
            state.well_formed(),
    {
        TuiState {
            target: target.to_owned(),
            port,
            mode: TuiMode::Session,
            file_picker: None,
            status: "Connected".to_owned(),
            transfer: None,
        }
    }

    fn run_command(&mut self, command: Command) -> (action: Action<P>)
        ensures
            command_step(*old(self), command, *final(self), action),
    {
        match command {
            Command::Literal => {
                self.status = "Sent Ctrl-A to remote".to_owned();
                self.mode = TuiMode::Session;
                let bytes: Vec<u8> = vec![COMMAND_KEY];
                assert(bytes@ == seq![COMMAND_KEY]);
                Action::Send(bytes)
            },
            Command::Summary => {
                self.mode = TuiMode::CommandSummary;
                Action::Continue
            },
            Command::Upload => Action::OpenPicker,
            Command::Clear => {
                self.status = "Screen cleared".to_owned();
                self.mode = TuiMode::Session;
                Action::Show(clear_bytes())
            },
            Command::Quit => Action::End(TuiEnd::Quit),
            Command::Leave => {
                self.mode = TuiMode::Session;
                Action::Continue
            },
            Command::Unknown => {
                if !matches!(self.mode, TuiMode::CommandSummary) {
                    self.status = "Unknown command; Ctrl-A Z for help".to_owned();
                    self.mode = TuiMode::Session;
                }
                Action::Continue
            },
        }
    }

    /// Takes over the picker for a directory that was read at its opening, or
    /// reports why it could not be read.
    pub fn open_file_picker(&mut self, outcome: Result<Directory<P>, String>)
        ensures
            picker_opened(*old(self), outcome, *final(self)),
    {
        match outcome {
            Ok(directory) => {
                self.file_picker =
                Some(FilePicker::open(directory.cwd, directory.parent, directory.children));
                self.mode = TuiMode::FilePicker;
            },
            Err(error) => {
                self.status = join2("File picker: ", error.as_str());
                self.mode = TuiMode::Session;
            },
        }
    }

    /// Takes over a directory that the picker asked for, or reports why it
    /// could not be read; `parent` is the directory's parent, if it has one.
    pub fn directory_read(
        &mut self,
        parent: Option<P>,
        outcome: Result<Vec<DirectoryChild<P>>, String>,
    )
        ensures
            old(self).well_formed() ==> final(self).well_formed(),
            directory_step(*old(self), parent, outcome, *final(self)),
    {
        match self.file_picker.take() {
            Some(before) => {
                let mut picker = before;
                match picker.reload(parent, outcome) {
                    Ok(_) => {},
                    Err(error) => {
                        self.status = join2("File picker: ", error.as_str());
                    },
                }
                self.file_picker = Some(picker);
            },
            None => {},
        }
    }

    /// What the network brought asks for.
    pub fn handle_network(&self, read: NetworkRead) -> (action: Action<P>)
        ensures
            network_step(read, action),
    {
        match read {
            NetworkRead::Data(data) => Action::Show(data),
            NetworkRead::Idle => Action::Continue,
            NetworkRead::Closed => Action::End(TuiEnd::RemoteClosed),
        }
    }

    /// Begins an upload; `path` is how the file's path is shown.
    pub fn begin_upload(&mut self, name: &str, path: &str)
        ensures
            upload_began(*old(self), name@, path@, *final(self)),
            old(self).well_formed() ==> final(self).well_formed(),
    {
        self.transfer = Some(TransferProgress { name: name.to_owned(), sent: 0, total: 0 });
        self.status = join2("Sending ", path);
    }

    /// Takes note of what the upload of the file `name` reports.
    pub fn upload_event(&mut self, name: &str, event: UploadEvent) -> (action: Action<P>)
        ensures
            upload_step(*old(self), name@, event, *final(self), action),
            old(self).well_formed() ==> final(self).well_formed(),
    {
        match event {
            UploadEvent::Output(byte) => {
                let bytes: Vec<u8> = vec![byte];
                assert(bytes@ == seq![byte]);
                Action::Show(bytes)
            },
            UploadEvent::Progress { sent, total } => {
                self.transfer = Some(TransferProgress { name: name.to_owned(), sent, total });
                Action::Continue
            },
        }
    }

    /// Ends an upload: with the number of bytes that were sent, or with the
    /// error that stopped it.
    pub fn finish_upload(&mut self, outcome: Result<u64, String>)
        ensures
            upload_ended(*old(self), outcome, *final(self)),
            old(self).well_formed() ==> final(self).well_formed(),
    {
        match outcome {
            Ok(size) => {
                self.transfer = None;
                let digits = decimal_text(size);
                self.status = join3("YMODEM complete: ", digits.as_str(), " bytes");
            },
            Err(error) => {
                self.upload_failed(error.as_str());
            },
        }
    }

    /// Ends an upload that failed: it is shown no longer, and the status says
    /// why.
    pub fn upload_failed(&mut self, error: &str)
        ensures
            final(self).target == old(self).target,
            final(self).port == old(self).port,
            final(self).mode == old(self).mode,
            final(self).file_picker == old(self).file_picker,
            final(self).transfer is None,
            final(self).status@ == "YMODEM failed: "@ + error@,
            old(self).well_formed() ==> final(self).well_formed(),
    {
        self.transfer = None;
        self.status = join2("YMODEM failed: ", error);
    }
}

impl<P: Clone> TuiState<P> {
    /// Handles a key press.
    pub fn handle_key(&mut self, key: KeyEvent, parent: Option<P>) -> (action: Action<P>)
        ensures
            key_step(*old(self), key, parent, *final(self), action),
            old(self).well_formed() ==> final(self).well_formed(),
    {
        match self.mode {
            TuiMode::Session => {
                if is_command_key(key) {
                    self.mode = TuiMode::CommandPrefix;
                    return Action::Continue;
                }
                match key_to_telnet_bytes(key) {
                    Some(bytes) => Action::Send(bytes),
                    None => Action::Continue,
                }
            },
            TuiMode::CommandPrefix => self.run_command(command_after_prefix(key)),
            TuiMode::CommandSummary => self.run_command(command_in_summary(key)),
            TuiMode::FilePicker => match self.file_picker.take() {
                Some(before) => {
                    let mut picker = before;
                    match picker.handle_key(key, parent) {
                        PickerAction::Nothing => {
                            self.file_picker = Some(picker);
                            Action::Continue
                        },
                        PickerAction::Read => {
                            self.file_picker = Some(picker);
                            Action::ReadDirectory
                        },
                        PickerAction::Cancel => {
                            self.mode = TuiMode::Session;
                            Action::Continue
                        },
                        PickerAction::Upload(path) => {
                            self.mode = TuiMode::Session;
                            Action::Upload(path)
                        },
                    }
                },
                None => {
                    self.mode = TuiMode::Session;
                    Action::Continue
                },
            },
        }
    }

    /// Handles a terminal event.
    pub fn handle_event(&mut self, event: Event, parent: Option<P>) -> (action: Action<P>)
        ensures
            event_step(*old(self), event, parent, *final(self), action),
            old(self).well_formed() ==> final(self).well_formed(),
    {
        match event {
            Event::Key(key) => if matches!(key.kind, KeyEventKind::Press | KeyEventKind::Repeat) {
                self.handle_key(key, parent)
            } else {
                Action::Continue
            },
            Event::Resize => Action::Resize,
            Event::Other => Action::Continue,
        }
    }
}

/// What is said after a session has ended, if anything.
pub fn closing_message(end: TuiEnd) -> (message: Option<String>)
    ensures
        match end {
            TuiEnd::RemoteClosed => message matches Some(text) && text@
                == "connection closed by remote host"@,
            TuiEnd::Quit => message is None,
        },
{
    match end {
        TuiEnd::RemoteClosed => Some("connection closed by remote host".to_owned()),
        TuiEnd::Quit => None,
    }
}

/// What went wrong with the terminal.
pub enum TerminalFailure {
    RawMode(String),
    AlternateScreen(String),
    Initialize(String),
    Size(String),
    Draw(String),
    Input(String),
    /// There is no more input.
    InputClosed,
}

/// What the user is told of a terminal that failed.
pub fn terminal_error(failure: TerminalFailure) -> (text: String)
    ensures
        text@ == (match failure {
            TerminalFailure::RawMode(error) => "enable terminal raw mode: "@ + error@,
            TerminalFailure::AlternateScreen(error) => "enter alternate terminal screen: "@
                + error@,
            TerminalFailure::Initialize(error) => "initialize terminal UI: "@ + error@,
            TerminalFailure::Size(error) => "read terminal size: "@ + error@,
            TerminalFailure::Draw(error) => "draw terminal UI: "@ + error@,
            TerminalFailure::Input(error) => "read terminal input: "@ + error@,
            TerminalFailure::InputClosed => "terminal event stream closed"@,
        }),
{
    match failure {
        TerminalFailure::RawMode(error) => join2("enable terminal raw mode: ", error.as_str()),
        TerminalFailure::AlternateScreen(error) => join2(
            "enter alternate terminal screen: ",
            error.as_str(),
        ),
        TerminalFailure::Initialize(error) => join2("initialize terminal UI: ", error.as_str()),
        TerminalFailure::Size(error) => join2("read terminal size: ", error.as_str()),
        TerminalFailure::Draw(error) => join2("draw terminal UI: ", error.as_str()),
        TerminalFailure::Input(error) => join2("read terminal input: ", error.as_str()),
        TerminalFailure::InputClosed => "terminal event stream closed".to_owned(),
    }
}

// ---------------------------------------------------------------------------
// Laws
// ---------------------------------------------------------------------------

/// No key press parts the picker from its mode, or takes its cursor off the
/// list.
pub proof fn law_keys_keep_session_well_formed<P: Clone>(
    before: TuiState<P>,
    key: KeyEvent,
    parent: Option<P>,
    after: TuiState<P>,
    action: Action<P>,
)
    requires
        before.well_formed(),
        key_step(before, key, parent, after, action),
    ensures
        after.well_formed(),
{
    if before.mode is FilePicker {
        let picker = before.file_picker->0;
        let (next, answer) = choose|next: FilePicker<P>, answer: PickerAction<P>|
            {
                &&& #[trigger] crate::file_picker::picker_step(picker, key, parent, next, answer)
                &&& picker_answer(before, next, answer, after, action)
            };
        crate::file_picker::law_picker_keeps_cursor_on_list(picker, key, parent, next, answer);
    }
}

/// The first prefix goes nowhere; the second sends the peer the one byte that
/// stands for it and leads back to the session.
pub proof fn law_double_prefix_sends_literal<P: Clone>(
    before: TuiState<P>,
    first: KeyEvent,
    between: TuiState<P>,
    first_action: Action<P>,
    second: KeyEvent,
    after: TuiState<P>,
    second_action: Action<P>,
    parent: Option<P>,
)
    requires
        before.mode is Session,
        crate::keymap::is_prefix(first),
        crate::keymap::is_prefix(second),
        key_step(before, first, parent, between, first_action),
        key_step(between, second, parent, after, second_action),
    ensures
        first_action is Continue,
        second_action matches Action::Send(bytes) && bytes@ == seq![COMMAND_KEY],
        after.mode is Session,
        same_but_mode_and_status(before, after),
{
}

/// After the prefix the letters of the command list do what the list says, in
/// either case: `Z` shows the summary, `S` opens the picker, `C` clears the
/// screen, `Q` and `X` end the session. A second prefix is sent, `Esc` and
/// `Enter` lead back, and so does any other key, with a word of help.
pub proof fn law_prefixed_letters_run_commands<P: Clone>(
    before: TuiState<P>,
    key: KeyEvent,
    parent: Option<P>,
    after: TuiState<P>,
    action: Action<P>,
)
    requires
        before.mode is CommandPrefix,
        key_step(before, key, parent, after, action),
    ensures
        match key.code {
            KeyCode::Char('z') | KeyCode::Char('Z') => {
                &&& action is Continue
                &&& after.mode is CommandSummary
                &&& after.status == before.status
            },
            KeyCode::Char('s') | KeyCode::Char('S') => action is OpenPicker && after == before,
            KeyCode::Char('c') | KeyCode::Char('C') => {
                &&& action matches Action::Show(bytes)
                &&& bytes@ == seq![0x1bu8, 0x5b, 0x32, 0x4a, 0x1b, 0x5b, 0x48]
                &&& after.mode is Session
                &&& after.status@ == "Screen cleared"@
            },
            KeyCode::Char('q') | KeyCode::Char('Q') | KeyCode::Char('x') | KeyCode::Char('X') => {
                action == Action::<P>::End(TuiEnd::Quit)
            },
            KeyCode::Char('a') | KeyCode::Char('A') => {
                &&& after.mode is Session
                &&& if key.modifiers.control {
                    &&& action matches Action::Send(bytes)
                    &&& bytes@ == seq![0x01u8]
                    &&& after.status@ == "Sent Ctrl-A to remote"@
                } else {
                    &&& action is Continue
                    &&& after.status@ == "Unknown command; Ctrl-A Z for help"@
                }
            },
            KeyCode::Esc | KeyCode::Enter => {
                &&& action is Continue
                &&& after.mode is Session
                &&& after.status == before.status
            },
            _ => {
                &&& action is Continue
                &&& after.mode is Session
                &&& after.status@ == "Unknown command; Ctrl-A Z for help"@
            },
        },
        !(after.mode is CommandPrefix) || action is OpenPicker || action is End,
{
}

/// In the command summary its letters do the same, in either case: `S` opens
/// the picker, `C` clears the screen and leads back to the session, `Q` ends
/// it. `Esc` and `Enter` lead back, and any other key is ignored.
pub proof fn law_summary_letters_run_commands<P: Clone>(
    before: TuiState<P>,
    key: KeyEvent,
    parent: Option<P>,
    after: TuiState<P>,
    action: Action<P>,
)
    requires
        before.mode is CommandSummary,
        key_step(before, key, parent, after, action),
    ensures
        match key.code {
            KeyCode::Char('s') | KeyCode::Char('S') => action is OpenPicker && after == before,
            KeyCode::Char('c') | KeyCode::Char('C') => {
                &&& action matches Action::Show(bytes)
                &&& bytes@ == seq![0x1bu8, 0x5b, 0x32, 0x4a, 0x1b, 0x5b, 0x48]
                &&& after.mode is Session
                &&& after.status@ == "Screen cleared"@
            },
            KeyCode::Char('q') | KeyCode::Char('Q') => {
                action == Action::<P>::End(TuiEnd::Quit)
            },
            KeyCode::Esc | KeyCode::Enter => {
                &&& action is Continue
                &&& after.mode is Session
                &&& after.status == before.status
            },
            _ => action is Continue && after == before,
        },
{
}

/// In the session `Ctrl-A` waits for a command, and is the only key that does;
/// any other changes nothing here and is sent if there is anything to send.
pub proof fn law_only_ctrl_a_is_the_prefix<P: Clone>(
    before: TuiState<P>,
    key: KeyEvent,
    parent: Option<P>,
    after: TuiState<P>,
    action: Action<P>,
)
    requires
        before.mode is Session,
        key_step(before, key, parent, after, action),
    ensures
        key.modifiers.control && (key.code == KeyCode::Char('a') || key.code == KeyCode::Char('A'))
            ==> action is Continue && after.mode is CommandPrefix && after.status == before.status,
        !(key.modifiers.control && (key.code == KeyCode::Char('a') || key.code == KeyCode::Char(
            'A',
        ))) ==> {
            &&& after == before
            &&& action is Send || action is Continue
            &&& action is Send <==> crate::keymap::key_bytes(key) is Some
        },
{
}

/// A character typed into the session without modifiers reaches the peer as
/// that character: what is sent, escaped for the wire and decoded by the peer,
/// is its UTF-8 form.
pub proof fn law_typed_characters_reach_peer<P: Clone>(
    before: TuiState<P>,
    character: char,
    kind: KeyEventKind,
    parent: Option<P>,
    after: TuiState<P>,
    action: Action<P>,
)
    requires
        before.mode is Session,
        key_step(
            before,
            KeyEvent {
                code: KeyCode::Char(character),
                modifiers: crate::keymap::KeyModifiers { control: false, alt: false },
                kind,
            },
            parent,
            after,
            action,
        ),
    ensures
        action matches Action::Send(bytes) && vstd::utf8::decode_utf8(
            crate::telnet::run_data(
                crate::telnet::TelnetRxState::Data,
                crate::telnet::escaped(bytes@),
            ),
        ) == seq![character],
{
    crate::keymap::law_typed_characters_are_sent_in_utf8(character, kind);
    if let Action::Send(bytes) = action {
        crate::telnet::law_escaped_data_decodes_to_itself(bytes@);
    }
}

/// A key that repeats counts like one that goes down, and one that comes up
/// does not count; no other event changes the session.
pub proof fn law_releases_do_not_count<P: Clone>(
    before: TuiState<P>,
    event: Event,
    parent: Option<P>,
    after: TuiState<P>,
    action: Action<P>,
)
    requires
        event_step(before, event, parent, after, action),
    ensures
        match event {
            Event::Key(key) => match key.kind {
                KeyEventKind::Release => action is Continue && after == before,
                KeyEventKind::Press => key_step(before, key, parent, after, action),
                KeyEventKind::Repeat => key_step(before, key, parent, after, action),
            },
            Event::Resize => action is Resize && after == before,
            Event::Other => action is Continue && after == before,
        },
{
}

/// No key touches the connection's name or an upload, and none but those that
/// lead back from a command changes the status.
pub proof fn law_keys_leave_connection_alone<P: Clone>(
    before: TuiState<P>,
    key: KeyEvent,
    parent: Option<P>,
    after: TuiState<P>,
    action: Action<P>,
)
    requires
        key_step(before, key, parent, after, action),
    ensures
        after.target == before.target,
        after.port == before.port,
        after.transfer == before.transfer,
        before.mode is Session || before.mode is FilePicker ==> after.status == before.status,
        !(before.mode is FilePicker) ==> after.file_picker == before.file_picker,
{
}

/// To choose a file in the picker closes it and sends that file; to choose a
/// directory keeps it open, on that directory; `Ctrl-C` closes it as `Esc`
/// does.
pub proof fn law_choosing_sends_or_opens<P: Clone>(
    before: TuiState<P>,
    picker: FilePicker<P>,
    key: KeyEvent,
    parent: Option<P>,
    after: TuiState<P>,
    action: Action<P>,
)
    requires
        before.mode is FilePicker,
        before.file_picker == Some(picker),
        key_step(before, key, parent, after, action),
    ensures
        (key.code is Enter || key.code is Right) && picker.selected < picker.entries@.len() ==> {
            let entry = picker.entries@[picker.selected as int];
            if entry.is_dir {
                &&& action is ReadDirectory
                &&& after.mode is FilePicker
                &&& after.file_picker matches Some(next)
                &&& cloned(entry.path, next.cwd)
                &&& next.selected == 0
                &&& next.entries == picker.entries
            } else {
                &&& action matches Action::Upload(path)
                &&& cloned(entry.path, path)
                &&& after.mode is Session
                &&& after.file_picker is None
            }
        },
        key.code == KeyCode::Char('c') && key.modifiers.control ==> action is Continue
            && after.mode is Session && after.file_picker is None,
        action is Upload ==> key.code is Enter || key.code is Right,
        after.mode is Session <==> action is Upload || key.code is Esc || (key.code
            == KeyCode::Char('c') && key.modifiers.control),
        after.mode is FilePicker || after.mode is Session,
{
    let (next, answer) = choose|next: FilePicker<P>, answer: PickerAction<P>|
        {
            &&& #[trigger] crate::file_picker::picker_step(picker, key, parent, next, answer)
            &&& picker_answer(before, next, answer, after, action)
        };
    crate::file_picker::law_picker_keys(picker, key, parent, next, answer);
}

/// The picker opens on the directory that was read, at its first entry, and
/// says nothing; where none could be read the session goes on and the status
/// says why.
pub proof fn law_picker_opens_at_the_top<P>(
    before: TuiState<P>,
    outcome: Result<Directory<P>, String>,
    after: TuiState<P>,
)
    requires
        picker_opened(before, outcome, after),
    ensures
        outcome is Ok <==> after.mode is FilePicker,
        outcome is Err <==> after.mode is Session,
        outcome matches Ok(directory) ==> {
            &&& after.status == before.status
            &&& after.file_picker matches Some(picker)
            &&& picker.cwd == directory.cwd
            &&& picker.selected == 0
            &&& picker.entries@.len() == directory.children@.len() + (if directory.parent is Some {
                1int
            } else {
                0
            })
        },
        outcome matches Err(error) ==> {
            &&& after.status@ == "File picker: "@ + error@
            &&& after.file_picker == before.file_picker
        },
        after.target == before.target,
        after.port == before.port,
        after.transfer == before.transfer,
{
    if let Ok(directory) = outcome {
        let picker = after.file_picker->0;
        crate::listing::law_listing_shows_every_child(
            picker.shown(),
            directory.parent,
            directory.children@,
        );
        assert(picker.shown().len() == picker.entries@.len());
    }
}

/// A directory that was read is shown by the picker that asked for it, with
/// the cursor where it was if there is an entry, and nothing is said; one that
/// could not be read leaves the picker as it was, and the status says why.
pub proof fn law_directories_are_shown_or_reported<P>(
    before: TuiState<P>,
    picker: FilePicker<P>,
    parent: Option<P>,
    outcome: Result<Vec<DirectoryChild<P>>, String>,
    after: TuiState<P>,
)
    requires
        before.file_picker == Some(picker),
        directory_step(before, parent, outcome, after),
    ensures
        after.mode == before.mode,
        after.target == before.target,
        after.port == before.port,
        after.transfer == before.transfer,
        after.file_picker is Some,
        after.file_picker->0.cwd == picker.cwd,
        outcome matches Ok(children) ==> {
            let shown = after.file_picker->0;
            let len = children@.len() + (if parent is Some {
                1int
            } else {
                0
            });
            &&& after.status == before.status
            &&& shown.entries@.len() == len
            &&& picker.selected < len ==> shown.selected == picker.selected
            &&& picker.selected >= len > 0 ==> shown.selected == len - 1
        },
        outcome matches Err(error) ==> after.status@ == "File picker: "@ + error@
            && after.file_picker == before.file_picker,
{
    if let Ok(children) = outcome {
        let shown = after.file_picker->0;
        crate::listing::law_listing_shows_every_child(shown.shown(), parent, children@);
        assert(shown.shown().len() == shown.entries@.len());
    }
}

/// What the peer sends is shown as it is; the session ends when the peer
/// closes it, and at no other time on its account.
pub proof fn law_network_data_is_shown<P>(read: NetworkRead, action: Action<P>)
    requires
        network_step(read, action),
    ensures
        action is Show <==> read is Data,
        action is End <==> read is Closed,
        action is Continue <==> read is Idle,
        read matches NetworkRead::Data(data) ==> (action matches Action::Show(bytes) && bytes@
            == data@),
        action matches Action::End(end) ==> end is RemoteClosed,
{
}

/// An upload is shown under its name from its begin to its end, first with
/// nothing sent and then with what was last reported; what the peer sends
/// besides is shown, and changes nothing of that. The end takes it from the
/// screen and says how many bytes were sent, or why not all of them were.
pub proof fn law_upload_runs_its_course<P>(
    before: TuiState<P>,
    name: Seq<char>,
    path: Seq<char>,
    begun: TuiState<P>,
    event: UploadEvent,
    noted: TuiState<P>,
    action: Action<P>,
    outcome: Result<u64, String>,
    after: TuiState<P>,
)
    requires
        upload_began(before, name, path, begun),
        upload_step(begun, name, event, noted, action),
        upload_ended(noted, outcome, after),
    ensures
        begun.transfer matches Some(progress) && progress.name@ == name && progress.sent == 0
            && progress.total == 0,
        begun.status@ == "Sending "@ + path,
        noted.status == begun.status,
        noted.transfer matches Some(progress) && progress.name@ == name,
        event matches UploadEvent::Progress { sent, total } ==> {
            &&& action is Continue
            &&& noted.transfer->0.sent == sent
            &&& noted.transfer->0.total == total
        },
        event matches UploadEvent::Output(byte) ==> {
            &&& action matches Action::Show(bytes)
            &&& bytes@ == seq![byte]
            &&& noted.transfer == begun.transfer
        },
        after.transfer is None,
        outcome matches Ok(size) ==> after.status@ == "YMODEM complete: "@ + crate::text::decimal(
            size as nat,
        ) + " bytes"@,
        outcome matches Err(error) ==> after.status@ == "YMODEM failed: "@ + error@,
        after.mode == before.mode,
        after.file_picker == before.file_picker,
        after.target == before.target,
        after.port == before.port,
{
}

/// A key press ends a session only as a quit command: `Q` after the prefix or
/// in the summary, or `X` after the prefix.
pub proof fn law_only_quit_commands_end_session<P: Clone>(
    before: TuiState<P>,
    key: KeyEvent,
    parent: Option<P>,
    after: TuiState<P>,
    end: TuiEnd,
)
    requires
        key_step(before, key, parent, after, Action::End(end)),
    ensures
        end is Quit,
        before.mode is CommandPrefix || before.mode is CommandSummary,
        match key.code {
            KeyCode::Char('q') | KeyCode::Char('Q') => true,
            KeyCode::Char('x') | KeyCode::Char('X') => before.mode is CommandPrefix,
            _ => false,
        },
{
}

/// Local commands stay local: outside the session mode the peer is sent
/// nothing but the literal prefix byte, and the prefix itself is never sent
/// from the session mode.
pub proof fn law_commands_are_not_sent<P: Clone>(
    before: TuiState<P>,
    key: KeyEvent,
    parent: Option<P>,
    after: TuiState<P>,
    bytes: Vec<u8>,
)
    requires
        key_step(before, key, parent, after, Action::Send(bytes)),
    ensures
        before.mode is Session || before.mode is CommandPrefix,
        before.mode is Session ==> !crate::keymap::is_prefix(key) && Some(bytes@)
            == crate::keymap::key_bytes(key),
        before.mode is CommandPrefix ==> crate::keymap::is_prefix(key) && bytes@ == seq![
            COMMAND_KEY,
        ],
{
}

/// Whatever is typed into the session reaches the peer as typed: the bytes of
/// a key, escaped for the wire, decode to the same bytes.
pub proof fn law_typed_keys_reach_peer<P: Clone>(
    before: TuiState<P>,
    key: KeyEvent,
    parent: Option<P>,
    after: TuiState<P>,
    bytes: Vec<u8>,
)
    requires
        before.mode is Session,
        key_step(before, key, parent, after, Action::Send(bytes)),
    ensures
        Some(
            crate::telnet::run_data(
                crate::telnet::TelnetRxState::Data,
                crate::telnet::escaped(bytes@),
            ),
        ) == crate::keymap::key_bytes(key),
{
    crate::telnet::law_escaped_data_decodes_to_itself(bytes@);
}

/// `Esc` closes the picker, and nothing else changes.
pub proof fn law_escape_closes_picker<P: Clone>(
    before: TuiState<P>,
    key: KeyEvent,
    parent: Option<P>,
    after: TuiState<P>,
    action: Action<P>,
)
    requires
        before.mode is FilePicker,
        key.code is Esc,
        key_step(before, key, parent, after, action),
    ensures
        action is Continue,
        after.mode is Session,
        after.file_picker is None,
        after.target == before.target,
        after.port == before.port,
        after.status == before.status,
        after.transfer == before.transfer,
{
}

} // verus!
