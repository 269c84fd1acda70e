use microtun_telnet::keymap::{KeyCode, KeyEvent, KeyEventKind, KeyModifiers};
use microtun_telnet::listing::DirectoryChild;
use microtun_telnet::session::{
    closing_message, terminal_error, Action, Directory, Event, TerminalFailure, TuiEnd, TuiMode,
    TuiState, UploadEvent,
};
use microtun_telnet::telnet::NetworkRead;

const NONE: KeyModifiers = KeyModifiers { control: false, alt: false };
const CONTROL: KeyModifiers = KeyModifiers { control: true, alt: false };

fn session() -> TuiState<String> {
    TuiState::new("device.local", 23)
}

fn press(state: &mut TuiState<String>, code: KeyCode, modifiers: KeyModifiers) -> Action<String> {
    state.handle_event(Event::Key(KeyEvent::new(code, modifiers)), Some("/parent".to_owned()))
}

fn prefix(state: &mut TuiState<String>) {
    assert!(matches!(press(state, KeyCode::Char('a'), CONTROL), Action::Continue));
    assert_eq!(state.mode, TuiMode::CommandPrefix);
}

fn directory() -> Directory<String> {
    Directory {
        cwd: "/data".to_owned(),
        parent: Some("/".to_owned()),
        children: vec![DirectoryChild {
            file_name: "config.ini".to_owned(),
            path: "/data/config.ini".to_owned(),
            is_dir: false,
        }],
    }
}

#[test]
fn a_session_starts_connected() {
    let state = session();
    assert_eq!(state.target, "device.local");
    assert_eq!(state.port, 23);
    assert_eq!(state.mode, TuiMode::Session);
    assert_eq!(state.status, "Connected");
    assert!(state.file_picker.is_none());
    assert!(state.transfer.is_none());
}

#[test]
fn typed_keys_are_sent() {
    let mut state = session();
    match press(&mut state, KeyCode::Up, NONE) {
        Action::Send(bytes) => assert_eq!(bytes, b"\x1b[A"),
        _ => panic!("a key is sent"),
    }
    assert!(matches!(press(&mut state, KeyCode::Other, NONE), Action::Continue));
    assert_eq!(state.mode, TuiMode::Session);
}

#[test]
fn released_keys_and_other_events_do_nothing() {
    let mut state = session();
    let mut key = KeyEvent::new(KeyCode::Char('x'), NONE);
    key.kind = KeyEventKind::Release;
    assert!(matches!(state.handle_event(Event::Key(key), None), Action::Continue));
    key.kind = KeyEventKind::Repeat;
    assert!(matches!(state.handle_event(Event::Key(key), None), Action::Send(_)));
    assert!(matches!(state.handle_event(Event::Resize, None), Action::Resize));
    assert!(matches!(state.handle_event(Event::Other, None), Action::Continue));
}

#[test]
fn a_second_prefix_sends_a_literal_one() {
    let mut state = session();
    prefix(&mut state);
    match press(&mut state, KeyCode::Char('A'), CONTROL) {
        Action::Send(bytes) => assert_eq!(bytes, vec![0x01]),
        _ => panic!("the prefix byte is sent"),
    }
    assert_eq!(state.mode, TuiMode::Session);
    assert_eq!(state.status, "Sent Ctrl-A to remote");
}

#[test]
fn quit_and_exit_end_the_session() {
    for letter in ['q', 'Q', 'x', 'X'] {
        let mut state = session();
        prefix(&mut state);
        let action = press(&mut state, KeyCode::Char(letter), NONE);
        assert!(matches!(action, Action::End(TuiEnd::Quit)));
    }
    let mut state = session();
    assert!(matches!(press(&mut state, KeyCode::Char('q'), NONE), Action::Send(_)));
    assert_eq!(closing_message(TuiEnd::Quit), None);
    assert_eq!(
        closing_message(TuiEnd::RemoteClosed),
        Some("connection closed by remote host".to_owned())
    );
}

#[test]
fn clearing_the_screen_shows_the_clear_sequence() {
    let mut state = session();
    prefix(&mut state);
    match press(&mut state, KeyCode::Char('c'), NONE) {
        Action::Show(bytes) => assert_eq!(bytes, b"\x1b[2J\x1b[H"),
        _ => panic!("the screen is cleared"),
    }
    assert_eq!(state.status, "Screen cleared");
    assert_eq!(state.mode, TuiMode::Session);
}

#[test]
fn the_summary_offers_the_commands() {
    let mut state = session();
    prefix(&mut state);
    assert!(matches!(press(&mut state, KeyCode::Char('Z'), NONE), Action::Continue));
    assert_eq!(state.mode, TuiMode::CommandSummary);
    assert!(matches!(press(&mut state, KeyCode::Char('y'), NONE), Action::Continue));
    assert_eq!(state.mode, TuiMode::CommandSummary);
    assert!(matches!(press(&mut state, KeyCode::Char('Q'), NONE), Action::End(TuiEnd::Quit)));
    assert!(matches!(press(&mut state, KeyCode::Char('s'), NONE), Action::OpenPicker));
    assert!(matches!(press(&mut state, KeyCode::Enter, NONE), Action::Continue));
    assert_eq!(state.mode, TuiMode::Session);
}

#[test]
fn unknown_commands_lead_back_to_the_session() {
    let mut state = session();
    prefix(&mut state);
    assert!(matches!(press(&mut state, KeyCode::Char('y'), NONE), Action::Continue));
    assert_eq!(state.status, "Unknown command; Ctrl-A Z for help");
    assert_eq!(state.mode, TuiMode::Session);
    state.status = "Connected".to_owned();
    prefix(&mut state);
    assert!(matches!(press(&mut state, KeyCode::Esc, NONE), Action::Continue));
    assert_eq!(state.status, "Connected");
}

#[test]
fn the_picker_opens_and_sends_a_file() {
    let mut state = session();
    prefix(&mut state);
    assert!(matches!(press(&mut state, KeyCode::Char('S'), NONE), Action::OpenPicker));
    state.open_file_picker(Ok(directory()));
    assert_eq!(state.mode, TuiMode::FilePicker);
    assert!(matches!(press(&mut state, KeyCode::Down, NONE), Action::Continue));
    match press(&mut state, KeyCode::Enter, NONE) {
        Action::Upload(path) => assert_eq!(path, "/data/config.ini"),
        _ => panic!("the file is sent"),
    }
    assert_eq!(state.mode, TuiMode::Session);
    assert!(state.file_picker.is_none());
}

#[test]
fn the_picker_reads_directories_and_reports_errors() {
    let mut state = session();
    state.open_file_picker(Ok(directory()));
    assert!(matches!(press(&mut state, KeyCode::Backspace, NONE), Action::ReadDirectory));
    state.directory_read(None, Err("open directory /parent: denied".to_owned()));
    assert_eq!(state.status, "File picker: open directory /parent: denied");
    assert_eq!(state.mode, TuiMode::FilePicker);
    let picker = state.file_picker.as_ref().unwrap();
    assert_eq!(picker.cwd, "/parent");
    assert_eq!(picker.entries.len(), 2);
    state.directory_read(None, Ok(vec![]));
    assert_eq!(state.file_picker.as_ref().unwrap().entries.len(), 0);
    assert!(matches!(press(&mut state, KeyCode::Esc, NONE), Action::Continue));
    assert_eq!(state.mode, TuiMode::Session);
    assert!(state.file_picker.is_none());
    state.open_file_picker(Err("read current directory: gone".to_owned()));
    assert_eq!(state.status, "File picker: read current directory: gone");
    assert_eq!(state.mode, TuiMode::Session);
}

#[test]
fn a_picker_mode_without_a_picker_is_left() {
    let mut state = session();
    state.mode = TuiMode::FilePicker;
    assert!(matches!(press(&mut state, KeyCode::Down, NONE), Action::Continue));
    assert_eq!(state.mode, TuiMode::Session);
}

#[test]
fn uploads_report_their_progress() {
    let mut state = session();
    state.begin_upload("config.ini", "/data/config.ini");
    assert_eq!(state.status, "Sending /data/config.ini");
    assert_eq!(state.transfer.as_ref().unwrap().total, 0);
    match state.upload_event("config.ini", UploadEvent::Output(b'!')) {
        Action::Show(bytes) => assert_eq!(bytes, b"!"),
        _ => panic!("output is shown"),
    }
    state.upload_event("config.ini", UploadEvent::Progress { sent: 5, total: 12 });
    let progress = state.transfer.as_ref().unwrap();
    assert_eq!((progress.name.as_str(), progress.sent, progress.total), ("config.ini", 5, 12));
    state.finish_upload(Ok(12));
    assert!(state.transfer.is_none());
    assert_eq!(state.status, "YMODEM complete: 12 bytes");
    state.begin_upload("x", "x");
    state.finish_upload(Err("YMODEM transfer timed out".to_owned()));
    assert!(state.transfer.is_none());
    assert_eq!(state.status, "YMODEM failed: YMODEM transfer timed out");
    state.begin_upload("x", "x");
    state.upload_failed("draw terminal UI: closed");
    assert!(state.transfer.is_none());
    assert_eq!(state.status, "YMODEM failed: draw terminal UI: closed");
}

#[test]
fn terminal_failures_have_their_texts() {
    let error = || "denied".to_owned();
    let table = [
        (TerminalFailure::RawMode(error()), "enable terminal raw mode: denied"),
        (TerminalFailure::AlternateScreen(error()), "enter alternate terminal screen: denied"),
        (TerminalFailure::Initialize(error()), "initialize terminal UI: denied"),
        (TerminalFailure::Size(error()), "read terminal size: denied"),
        (TerminalFailure::Draw(error()), "draw terminal UI: denied"),
        (TerminalFailure::Input(error()), "read terminal input: denied"),
        (TerminalFailure::InputClosed, "terminal event stream closed"),
    ];
    for (failure, text) in table {
        assert_eq!(terminal_error(failure), text);
    }
}

#[test]
fn the_network_is_shown_until_it_closes() {
    let state = session();
    match state.handle_network(NetworkRead::Data(b"hi".to_vec())) {
        Action::Show(bytes) => assert_eq!(bytes, b"hi"),
        _ => panic!("data is shown"),
    }
    assert!(matches!(state.handle_network(NetworkRead::Idle), Action::Continue));
    assert!(matches!(
        state.handle_network(NetworkRead::Closed),
        Action::End(TuiEnd::RemoteClosed)
    ));
}
