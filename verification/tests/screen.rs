use microtun_telnet::file_picker::FilePicker;
use microtun_telnet::listing::DirectoryChild;
use microtun_telnet::scene::{draw_terminal_ui, Popup, Scene};
use microtun_telnet::screen::{
    centered_rect, new_remote_parser, remote_parser_size, resize_remote_parser, Rect, Size,
};
use microtun_telnet::session::{TransferProgress, TuiMode, TuiState};

fn rect(x: u16, y: u16, width: u16, height: u16) -> Rect {
    Rect { x, y, width, height }
}

fn session() -> TuiState<String> {
    TuiState::new("100.64.0.3", 2323)
}

fn draw(state: &TuiState<String>, area: Rect) -> Scene {
    draw_terminal_ui(state, "/data", area)
}

#[test]
fn remote_size_reserves_one_status_line() {
    assert_eq!(remote_parser_size(Size::new(80, 24)), (23, 80));
    assert_eq!(remote_parser_size(Size::new(1, 1)), (1, 1));
}

#[test]
fn remote_size_is_never_empty() {
    assert_eq!(remote_parser_size(Size::new(0, 0)), (1, 1));
    assert_eq!(remote_parser_size(Size::new(80, 2)), (1, 80));
    assert_eq!(remote_parser_size(Size::new(65535, 65535)), (65534, 65535));
}

#[test]
fn the_emulator_follows_the_terminal() {
    let mut parser = new_remote_parser(Size::new(80, 24));
    assert_eq!(parser.screen().size(), (23, 80));
    parser.process(b"hello");
    resize_remote_parser(&mut parser, Size::new(80, 24));
    assert_eq!(parser.screen().size(), (23, 80));
    assert_eq!(parser.screen().contents(), "hello");
    resize_remote_parser(&mut parser, Size::new(40, 10));
    assert_eq!(parser.screen().size(), (9, 40));
    resize_remote_parser(&mut parser, Size::new(0, 0));
    assert_eq!(parser.screen().size(), (1, 1));
}

#[test]
fn resizing_keeps_what_has_room() {
    let mut parser = new_remote_parser(Size::new(10, 5));
    assert_eq!(parser.screen().contents(), "");
    assert_eq!(parser.screen().cursor_position(), (0, 0));
    parser.process(b"first\r\n\x1b[1;31msecond\r\nthird");
    resize_remote_parser(&mut parser, Size::new(20, 9));
    assert_eq!(parser.screen().contents(), "first\nsecond\nthird");
    assert_eq!(parser.screen().cursor_position(), (2, 5));
    let cell = parser.screen().cell(1, 0).unwrap();
    assert_eq!(cell.contents(), "s");
    assert!(cell.bold());
    assert_eq!(cell.fgcolor(), tui_term::vt100::Color::Idx(1));
    for (row, col) in [(7, 19), (0, 10), (4, 0)] {
        let cell = parser.screen().cell(row, col).unwrap();
        assert!(!cell.has_contents() && !cell.bold());
        assert_eq!(cell.fgcolor(), tui_term::vt100::Color::Default);
    }
    resize_remote_parser(&mut parser, Size::new(4, 3));
    assert_eq!(parser.screen().contents(), "firs\nseco");
    assert_eq!(parser.screen().cursor_position(), (1, 3));
    resize_remote_parser(&mut parser, Size::new(10, 5));
    assert_eq!(parser.screen().contents(), "firs\nseco");
}

#[test]
fn the_emulator_keeps_ten_thousand_lines() {
    let mut parser = new_remote_parser(Size::new(10, 5));
    resize_remote_parser(&mut parser, Size::new(10, 4));
    for _ in 0..10_050 {
        parser.process(b"line\r\n");
    }
    parser.set_scrollback(20_000);
    assert_eq!(parser.screen().scrollback(), 10_000);
}

#[test]
fn popups_are_centred_and_cut_to_the_area() {
    assert_eq!(centered_rect(64, 5, rect(0, 0, 80, 24)), rect(8, 9, 64, 5));
    assert_eq!(centered_rect(62, 12, rect(0, 0, 81, 24)), rect(9, 6, 62, 12));
    assert_eq!(centered_rect(64, 5, rect(3, 4, 10, 2)), rect(3, 4, 10, 2));
}

#[test]
fn the_status_line_is_the_last_line() {
    for height in 2..60 {
        for width in [1, 20, 80, 300] {
            let scene = draw(&session(), rect(0, 0, width, height));
            assert_eq!(scene.terminal, rect(0, 0, width, height - 1));
            assert_eq!(scene.status_area, rect(0, height - 1, width, 1));
        }
    }
    let scene = draw(&session(), rect(5, 7, 30, 9));
    assert_eq!(scene.terminal, rect(5, 7, 30, 8));
    assert_eq!(scene.status_area, rect(5, 15, 30, 1));
}

#[test]
fn the_terminal_has_the_only_line() {
    let scene = draw(&session(), rect(0, 0, 80, 1));
    assert_eq!(scene.terminal, rect(0, 0, 80, 1));
    assert_eq!(scene.status_area, rect(0, 1, 80, 0));
    let scene = draw(&session(), rect(3, 4, 80, 0));
    assert_eq!(scene.terminal, rect(3, 4, 80, 0));
    assert_eq!(scene.status_area, rect(3, 4, 80, 0));
}

#[test]
fn the_status_line_tells_where_it_is_connected() {
    let scene = draw(&session(), rect(0, 0, 80, 24));
    let texts: Vec<&str> = scene.status.iter().map(|span| span.text.as_str()).collect();
    assert_eq!(
        texts,
        vec![" CTRL-A Z for help ", "| ", "Connected", " | VT100 | ", "100.64.0.3:2323 "]
    );
    let bold: Vec<bool> = scene.status.iter().map(|span| span.bold).collect();
    assert_eq!(bold, vec![true, false, false, false, false]);
    assert!(matches!(scene.popup, Popup::Hidden));
}

#[test]
fn an_upload_goes_before_every_other_popup() {
    let mut state = session();
    state.mode = TuiMode::CommandSummary;
    state.transfer = Some(TransferProgress { name: "config.ini".to_owned(), sent: 0, total: 0 });
    match draw(&state, rect(0, 0, 80, 24)).popup {
        Popup::Transfer(popup) => {
            assert_eq!(popup.area, rect(8, 9, 64, 5));
            assert_eq!(popup.title, " Send file \u{b7} config.ini ");
            assert_eq!(popup.label, "Waiting for receiver");
            assert_eq!(popup.progress, None);
        }
        _ => panic!("the upload is shown"),
    }
    state.transfer = Some(TransferProgress { name: "x".to_owned(), sent: 1024, total: 20480 });
    match draw(&state, rect(0, 0, 80, 24)).popup {
        Popup::Transfer(popup) => {
            assert_eq!(popup.label, "1024 / 20480 bytes");
            assert_eq!(popup.progress, Some((1024, 20480)));
        }
        _ => panic!("the upload is shown"),
    }
    state.transfer = Some(TransferProgress { name: "x".to_owned(), sent: 9, total: 7 });
    match draw(&state, rect(0, 0, 80, 24)).popup {
        Popup::Transfer(popup) => {
            assert_eq!(popup.label, "9 / 7 bytes");
            assert_eq!(popup.progress, Some((7, 7)));
        }
        _ => panic!("the upload is shown"),
    }
}

#[test]
fn the_summary_lists_the_commands() {
    let mut state = session();
    state.mode = TuiMode::CommandSummary;
    match draw(&state, rect(0, 0, 80, 24)).popup {
        Popup::Summary(popup) => {
            assert_eq!(popup.area, rect(9, 6, 62, 12));
            assert_eq!(popup.title, " Command Summary ");
            assert_eq!(popup.lines.len(), 9);
            assert_eq!(popup.lines[1], "  Commands can be called by CTRL-A <key>");
            assert_eq!(popup.lines[8], "  Select function or press Enter for none.");
        }
        _ => panic!("the summary is shown"),
    }
    state.mode = TuiMode::CommandPrefix;
    assert!(matches!(draw(&state, rect(0, 0, 80, 24)).popup, Popup::Hidden));
}

#[test]
fn the_picker_shows_its_path_list_and_help() {
    let mut state = session();
    let mut children = Vec::new();
    for index in 0..40 {
        let name = format!("file{index:02}");
        children.push(DirectoryChild { file_name: name.clone(), path: name, is_dir: false });
    }
    let mut picker = FilePicker::open("/data".to_owned(), Some("/".to_owned()), children);
    picker.selected = 30;
    state.file_picker = Some(picker);
    state.mode = TuiMode::FilePicker;
    match draw(&state, rect(0, 0, 80, 24)).popup {
        Popup::Picker(popup) => {
            assert_eq!(popup.area, rect(1, 2, 78, 20));
            assert_eq!(popup.title, " Send file (YMODEM) ");
            assert_eq!(popup.path_area, rect(2, 3, 76, 1));
            assert_eq!(popup.path_label, " Path: ");
            assert_eq!(popup.path, "/data");
            assert_eq!(popup.list_area, rect(2, 4, 76, 16));
            assert_eq!(popup.rows.len(), 16);
            assert_eq!(popup.rows[15].text, "> file29");
            assert!(popup.rows[15].selected);
            assert_eq!(popup.help_area, rect(2, 20, 76, 1));
            assert_eq!(popup.help, " Enter open/send \u{b7} Backspace parent \u{b7} Esc cancel");
        }
        _ => panic!("the picker is shown"),
    }
    match draw(&state, rect(0, 0, 200, 60)).popup {
        Popup::Picker(popup) => assert_eq!(popup.area, rect(61, 19, 78, 22)),
        _ => panic!("the picker is shown"),
    }
    for height in 0..12 {
        match draw(&state, rect(0, 0, 80, height)).popup {
            Popup::Picker(popup) => {
                assert_eq!(popup.area.height, height.min(8));
                for part in [popup.path_area, popup.list_area, popup.help_area] {
                    assert!(popup.area.y <= part.y);
                    assert!(part.y + part.height <= popup.area.y + popup.area.height);
                }
                let (path, list, help) = (popup.path_area, popup.list_area, popup.help_area);
                assert!(path.y + path.height <= list.y && list.y + list.height <= help.y);
                assert_eq!(list.height >= 1, height >= 3);
                assert_eq!(popup.rows.len(), list.height as usize);
                let marked: Vec<&str> = popup
                    .rows
                    .iter()
                    .filter(|row| row.selected)
                    .map(|row| row.text.as_str())
                    .collect();
                assert_eq!(marked, if height >= 3 { vec!["> file29"] } else { vec![] });
            }
            _ => panic!("the picker is shown"),
        }
    }
}
