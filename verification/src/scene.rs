//! What the screen shows: the remote terminal, the status line and a popup.

use crate::file_picker::{FilePicker, PickerRow};
use crate::screen::{centered_rect, inside_border, split_rows, Rect, RowHeight};
use crate::session::{TransferProgress, TuiMode, TuiState};
use crate::text::{decimal_text, join2, join3};
use vstd::prelude::*;

verus! {

/// A piece of the status line.
pub struct StatusSpan {
    pub text: String,
    pub bold: bool,
}

/// The popup that shows an upload.
pub struct TransferPopup {
    pub area: Rect,
    pub title: String,
    pub label: String,
    /// How much of how much has been sent, once that is known.
    pub progress: Option<(u64, u64)>,
}

/// The command summary.
pub struct SummaryPopup {
    pub area: Rect,
    pub title: String,
    pub lines: Vec<String>,
}

/// The file picker.
pub struct PickerPopup {
    pub area: Rect,
    pub title: String,
    pub path_area: Rect,
    pub path_label: String,
    pub path: String,
    pub list_area: Rect,
    pub rows: Vec<PickerRow>,
    pub help_area: Rect,
    pub help: String,
}

/// The popup on top of the remote terminal.
pub enum Popup {
    Hidden,
    Transfer(TransferPopup),
    Summary(SummaryPopup),
    Picker(PickerPopup),
}

/// What the screen shows.
pub struct Scene {
    pub terminal: Rect,
    pub status_area: Rect,
    pub status: Vec<StatusSpan>,
    pub popup: Popup,
}

// ---------------------------------------------------------------------------
// What each part shows
// ---------------------------------------------------------------------------

/// A piece of the status line with the given text.
pub open spec fn is_span(span: StatusSpan, text: Seq<char>, bold: bool) -> bool {
    span.text@ == text && span.bold == bold
}

/// The status line of a session: how to get help, the status, the kind of
/// terminal, and where the session is connected.
pub open spec fn is_status_line<P>(spans: Seq<StatusSpan>, state: TuiState<P>) -> bool {
    &&& spans.len() == 5
    &&& is_span(spans[0], " CTRL-A Z for help "@, true)
    &&& is_span(spans[1], "| "@, false)
    &&& is_span(spans[2], state.status@, false)
    &&& is_span(spans[3], " | VT100 | "@, false)
    &&& is_span(
        spans[4],
        state.target@ + ":"@ + crate::text::decimal(state.port as nat) + " "@,
        false,
    )
}

/// The extent of the upload popup.
pub const TRANSFER_WIDTH: u16 = 64;

pub const TRANSFER_HEIGHT: u16 = 5;

/// The extent of the command summary.
pub const SUMMARY_WIDTH: u16 = 62;

pub const SUMMARY_HEIGHT: u16 = 12;

/// The width of the file picker.
pub const PICKER_WIDTH: u16 = 78;

/// The height of the file picker: the screen's less four lines, but no less
/// than eight and no more than twenty-two.
pub open spec fn picker_height(screen: u16) -> u16 {
    if screen < 12 {
        8
    } else if screen > 26 {
        22
    } else {
        (screen - 4) as u16
    }
}

/// The label of an upload: how far it has got, once the receiver is there.
pub open spec fn transfer_label(progress: TransferProgress) -> Seq<char> {
    if progress.total == 0 {
        "Waiting for receiver"@
    } else {
        crate::text::decimal(progress.sent as nat) + " / "@ + crate::text::decimal(
            progress.total as nat,
        ) + " bytes"@
    }
}

/// The share of an upload that is done: never more than all of it.
pub open spec fn transfer_share(progress: TransferProgress) -> Option<(u64, u64)> {
    if progress.total == 0 {
        None
    } else if progress.sent > progress.total {
        Some((progress.total, progress.total))
    } else {
        Some((progress.sent, progress.total))
    }
}

/// The popup of an upload.
pub open spec fn is_transfer_popup(
    popup: TransferPopup,
    progress: TransferProgress,
    area: Rect,
) -> bool {
    &&& popup.area == crate::screen::centred_area(TRANSFER_WIDTH, TRANSFER_HEIGHT, area)
    &&& popup.title@ == " Send file \u{b7} "@ + progress.name@ + " "@
    &&& popup.label@ == transfer_label(progress)
    &&& popup.progress == transfer_share(progress)
}

/// The lines of the command summary.
pub open spec fn summary_lines() -> Seq<Seq<char>> {
    seq![
        ""@,
        "  Commands can be called by CTRL-A <key>"@,
        ""@,
        "  Send files................S"@,
        "  Clear Screen..............C"@,
        "  Quit......................Q"@,
        "  Help screen...............Z"@,
        ""@,
        "  Select function or press Enter for none."@,
    ]
}

/// The popup of the command summary.
pub open spec fn is_summary_popup(popup: SummaryPopup, area: Rect) -> bool {
    &&& popup.area == crate::screen::centred_area(SUMMARY_WIDTH, SUMMARY_HEIGHT, area)
    &&& popup.title@ == " Command Summary "@
    &&& popup.lines@.len() == summary_lines().len()
    &&& forall|i: int|
        0 <= i < popup.lines@.len() ==> #[trigger] popup.lines@[i]@ == summary_lines()[i]
}

/// The area of the file picker.
pub open spec fn picker_area(area: Rect) -> Rect {
    crate::screen::centred_area(PICKER_WIDTH, picker_height(area.height), area)
}

/// The popup of a picker, in an area whose inside is cut into a line for the
/// path, the list, and a line for help. `cwd` is how its directory is shown.
pub open spec fn is_picker_popup<P>(
    popup: PickerPopup,
    picker: FilePicker<P>,
    cwd: Seq<char>,
    area: Rect,
    parts: Seq<Rect>,
) -> bool {
    &&& popup.area == area
    &&& popup.title@ == " Send file (YMODEM) "@
    &&& popup.path_area == parts[0]
    &&& popup.path_label@ == " Path: "@
    &&& popup.path@ == cwd
    &&& popup.list_area == parts[1]
    &&& crate::file_picker::is_window(
        popup.rows@,
        picker.entries@,
        picker.selected,
        parts[1].height as usize,
    )
    &&& popup.help_area == parts[2]
    &&& popup.help@ == " Enter open/send \u{b7} Backspace parent \u{b7} Esc cancel"@
}

/// The path, the list and the help of a picker, one below the other: a line
/// each for the path and the help where there is room for all three, and one
/// at least for the list where there is any.
pub open spec fn are_picker_parts(parts: Seq<Rect>, inside: Rect) -> bool {
    &&& parts.len() == 3
    &&& crate::screen::are_rows_of(parts, inside)
    &&& inside.bottom() - inside.y >= 1 ==> {
        &&& crate::screen::are_in_order(parts)
        &&& parts[1].height >= 1
    }
    &&& inside.bottom() - inside.y >= 3 ==> {
        &&& parts[0].y == inside.y
        &&& parts[0].height == 1
        &&& parts[1].y == inside.y + 1
        &&& parts[1].height == inside.bottom() - inside.y - 2
        &&& parts[2].y == inside.bottom() - 1
        &&& parts[2].height == 1
    }
}

/// How many of a screen's lines the status line takes: the last one, unless
/// that is the only one.
pub open spec fn status_height(lines: int) -> int {
    if lines >= 2 {
        1
    } else {
        0
    }
}

/// The remote terminal and below it the status line, both as wide as the
/// screen and filling it.
pub open spec fn are_screen_parts(terminal: Rect, status: Rect, area: Rect) -> bool {
    let lines = area.bottom() - area.y;
    &&& terminal.x == area.x
    &&& terminal.y == area.y
    &&& terminal.width == area.width
    &&& terminal.height == lines - status_height(lines)
    &&& status.x == area.x
    &&& status.y == area.bottom() - status_height(lines)
    &&& status.width == area.width
    &&& status.height == status_height(lines)
}

/// The popup of a picker on a screen: in the middle, with parts of its inside
/// for the path, the list and the help.
pub open spec fn is_drawn_picker<P>(
    popup: PickerPopup,
    picker: FilePicker<P>,
    cwd: Seq<char>,
    area: Rect,
) -> bool {
    exists|parts: Seq<Rect>|
        {
            &&& #[trigger] is_picker_popup(popup, picker, cwd, picker_area(area), parts)
            &&& are_picker_parts(parts, crate::screen::inset(picker_area(area)))
        }
}

/// The extent of the popup that a session shows, if it shows one: an upload
/// goes before everything else.
pub open spec fn popup_extent<P>(state: TuiState<P>, area: Rect) -> Option<(u16, u16)> {
    if state.transfer is Some {
        Some((TRANSFER_WIDTH, TRANSFER_HEIGHT))
    } else {
        match state.mode {
            TuiMode::CommandSummary => Some((SUMMARY_WIDTH, SUMMARY_HEIGHT)),
            TuiMode::FilePicker => if state.file_picker is Some {
                Some((PICKER_WIDTH, picker_height(area.height)))
            } else {
                None
            },
            _ => None,
        }
    }
}

/// The popup that a session shows.
pub open spec fn is_popup<P>(
    popup: Popup,
    state: TuiState<P>,
    cwd: Seq<char>,
    area: Rect,
) -> bool {
    if let Some(progress) = state.transfer {
        popup matches Popup::Transfer(shown) && is_transfer_popup(shown, progress, area)
    } else {
        match (state.mode, state.file_picker) {
            (TuiMode::CommandSummary, _) => popup matches Popup::Summary(shown)
                && is_summary_popup(shown, area),
            (TuiMode::FilePicker, Some(picker)) => popup matches Popup::Picker(shown)
                && is_drawn_picker(shown, picker, cwd, area),
            _ => popup is Hidden,
        }
    }
}

// ---------------------------------------------------------------------------
// Composing the scene
// ---------------------------------------------------------------------------

/// The status line of a session.
pub fn status_line<P>(state: &TuiState<P>) -> (spans: Vec<StatusSpan>)
    ensures
        is_status_line(spans@, *state),
{
    let mut address = join2(state.target.as_str(), ":");
    let port = decimal_text(state.port as u64);
    address.append(port.as_str());
    address.append(" ");
    let mut spans: Vec<StatusSpan> = Vec::new();
    spans.push(StatusSpan { text: " CTRL-A Z for help ".to_owned(), bold: true });
    spans.push(StatusSpan { text: "| ".to_owned(), bold: false });
    spans.push(StatusSpan { text: state.status.clone(), bold: false });
    spans.push(StatusSpan { text: " | VT100 | ".to_owned(), bold: false });
    spans.push(StatusSpan { text: address, bold: false });
    spans
}

/// The popup of an upload.
pub fn transfer_popup(progress: &TransferProgress, area: Rect) -> (popup: TransferPopup)
    requires
        crate::screen::centre_fits(TRANSFER_WIDTH, TRANSFER_HEIGHT, area),
    ensures
        is_transfer_popup(popup, *progress, area),
{
    let label = if progress.total == 0 {
        "Waiting for receiver".to_owned()
    } else {
        let sent = decimal_text(progress.sent);
        let total = decimal_text(progress.total);
        let mut label = join3(sent.as_str(), " / ", total.as_str());
        label.append(" bytes");
        label
    };
    let share = if progress.total == 0 {
        None
    } else if progress.sent > progress.total {
        Some((progress.total, progress.total))
    } else {
        Some((progress.sent, progress.total))
    };
    TransferPopup {
        area: centered_rect(TRANSFER_WIDTH, TRANSFER_HEIGHT, area),
        title: join3(" Send file \u{b7} ", progress.name.as_str(), " "),
        label,
        progress: share,
    }
}

/// The popup of the command summary.
pub fn summary_popup(area: Rect) -> (popup: SummaryPopup)
    requires
        crate::screen::centre_fits(SUMMARY_WIDTH, SUMMARY_HEIGHT, area),
    ensures
        is_summary_popup(popup, area),
{
    let mut lines: Vec<String> = Vec::new();
    lines.push("".to_owned());
    lines.push("  Commands can be called by CTRL-A <key>".to_owned());
    lines.push("".to_owned());
    lines.push("  Send files................S".to_owned());
    lines.push("  Clear Screen..............C".to_owned());
    lines.push("  Quit......................Q".to_owned());
    lines.push("  Help screen...............Z".to_owned());
    lines.push("".to_owned());
    lines.push("  Select function or press Enter for none.".to_owned());
    SummaryPopup {
        area: centered_rect(SUMMARY_WIDTH, SUMMARY_HEIGHT, area),
        title: " Command Summary ".to_owned(),
        lines,
    }
}

/// The popup of a picker, given the parts its inside was cut into.
pub fn picker_popup<P>(
    picker: &FilePicker<P>,
    cwd: &str,
    area: Rect,
    path_area: Rect,
    list_area: Rect,
    help_area: Rect,
) -> (popup: PickerPopup)
    ensures
        is_picker_popup(popup, *picker, cwd@, area, seq![path_area, list_area, help_area]),
{
    PickerPopup {
        area,
        title: " Send file (YMODEM) ".to_owned(),
        path_area,
        path_label: " Path: ".to_owned(),
        path: cwd.to_owned(),
        list_area,
        rows: picker.visible_rows(list_area.height as usize),
        help_area,
        help: " Enter open/send \u{b7} Backspace parent \u{b7} Esc cancel".to_owned(),
    }
}

/// Lays a picker out on the screen and composes its popup.
pub fn draw_picker<P>(picker: &FilePicker<P>, cwd: &str, area: Rect) -> (popup: PickerPopup)
    requires
        crate::screen::centre_fits(PICKER_WIDTH, picker_height(area.height), area),
    ensures
        is_drawn_picker(popup, *picker, cwd@, area),
{
    let height: u16 = if area.height < 12 {
        8
    } else if area.height > 26 {
        22
    } else {
        area.height - 4
    };
    let popup_area = centered_rect(PICKER_WIDTH, height, area);
    let inner = inside_border(popup_area);
    let rows: Vec<RowHeight> = vec![RowHeight::Length(1), RowHeight::Min(1), RowHeight::Length(1)];
    let parts = split_rows(inner, &rows);
    let popup = picker_popup(picker, cwd, popup_area, parts[0], parts[1], parts[2]);
    proof {
        assert(parts@ == seq![parts@[0], parts@[1], parts@[2]]);
        assert(are_picker_parts(parts@, inner)) by {
            let height = inner.bottom() - inner.y;
            assert(rows@.take(0).len() == 0);
            assert(rows@.take(1).drop_last() == rows@.take(0));
            assert(rows@.take(2).drop_last() == rows@.take(1));
            assert(rows@.take(3).drop_last() == rows@.take(2));
            assert(rows@.take(3) == rows@);
            reveal_with_fuel(crate::screen::fixed_height, 4);
            reveal_with_fuel(crate::screen::height_with, 4);
            if height >= 1 {
                assert(crate::screen::one_is_flexible(rows@, 1, height));
            }
            if height >= 3 {
                assert(crate::screen::have_room(rows@, 1, height));
            }
        }
        assert(is_picker_popup(popup, *picker, cwd@, picker_area(area), parts@));
    }
    popup
}

/// The popup that a session shows on an area.
pub fn popup<P>(state: &TuiState<P>, cwd: &str, area: Rect) -> (popup: Popup)
    requires
        popup_extent(*state, area) matches Some((width, height)) ==> crate::screen::centre_fits(
            width,
            height,
            area,
        ),
    ensures
        is_popup(popup, *state, cwd@, area),
{
    match &state.transfer {
        Some(progress) => Popup::Transfer(transfer_popup(progress, area)),
        None => match state.mode {
            TuiMode::CommandSummary => Popup::Summary(summary_popup(area)),
            TuiMode::FilePicker => match &state.file_picker {
                Some(picker) => Popup::Picker(draw_picker(picker, cwd, area)),
                None => Popup::Hidden,
            },
            TuiMode::CommandPrefix => Popup::Hidden,
            TuiMode::Session => Popup::Hidden,
        },
    }
}

/// What the screen shows of a session: the remote terminal, below it the
/// status line, and the popup on top. `cwd` is how the picker's directory is
/// shown, if there is a picker.
pub fn draw_terminal_ui<P>(state: &TuiState<P>, cwd: &str, area: Rect) -> (scene: Scene)
    requires
        popup_extent(*state, area) matches Some((width, height)) ==> crate::screen::centre_fits(
            width,
            height,
            area,
        ),
    ensures
        is_status_line(scene.status@, *state),
        is_popup(scene.popup, *state, cwd@, area),
        are_screen_parts(scene.terminal, scene.status_area, area),
{
    let rows: Vec<RowHeight> = vec![RowHeight::Min(1), RowHeight::Length(1)];
    let parts = split_rows(area, &rows);
    proof {
        let height = area.bottom() - area.y;
        assert(rows@.take(0).len() == 0);
        assert(rows@.take(1).drop_last() == rows@.take(0));
        assert(rows@.take(2).drop_last() == rows@.take(1));
        assert(rows@.take(2) == rows@);
        reveal_with_fuel(crate::screen::fixed_height, 3);
        reveal_with_fuel(crate::screen::height_with, 3);
        if height >= 1 {
            assert(crate::screen::one_is_flexible(rows@, 0, height));
        }
        if height >= 2 {
            assert(crate::screen::have_room(rows@, 0, height));
        }
    }
    Scene {
        terminal: parts[0],
        status_area: parts[1],
        status: status_line(state),
        popup: popup(state, cwd, area),
    }
}

// ---------------------------------------------------------------------------
// Laws
// ---------------------------------------------------------------------------

/// While an upload runs its popup is shown, in whatever mode the session is,
/// and at no other time.
pub proof fn law_upload_is_shown_while_it_runs<P>(
    popup: Popup,
    state: TuiState<P>,
    cwd: Seq<char>,
    area: Rect,
)
    requires
        is_popup(popup, state, cwd, area),
    ensures
        popup is Transfer <==> state.transfer is Some,
        popup matches Popup::Transfer(shown) ==> is_transfer_popup(
            shown,
            state.transfer->0,
            area,
        ),
{
}

/// The popup of an upload tells how far it has got. Until the total is known
/// the receiver is waited for, and only then; from then on the gauge shows what
/// was sent out of the total and never more than that, and the label has both
/// numbers.
pub proof fn law_upload_popup_tells_the_progress(
    popup: TransferPopup,
    progress: TransferProgress,
    area: Rect,
)
    requires
        is_transfer_popup(popup, progress, area),
    ensures
        popup.title@ == " Send file \u{b7} "@ + progress.name@ + " "@,
        progress.total == 0 <==> popup.progress is None,
        progress.total == 0 ==> popup.label@ == "Waiting for receiver"@,
        progress.total > 0 ==> {
            &&& popup.progress matches Some((shown, total))
            &&& total == progress.total
            &&& shown <= total
            &&& shown == total <==> progress.sent >= progress.total
            &&& progress.sent <= progress.total ==> shown == progress.sent
        },
        progress.total > 0 ==> popup.label@ == crate::text::decimal(progress.sent as nat) + " / "@
            + crate::text::decimal(progress.total as nat) + " bytes"@,
        progress.total > 0 ==> popup.label@.take(
            crate::text::decimal(progress.sent as nat).len() as int,
        ) == crate::text::decimal(progress.sent as nat),
{
    let sent = crate::text::decimal(progress.sent as nat);
    if progress.total > 0 {
        assert(popup.label@.take(sent.len() as int) == sent);
    }
}

/// The gauge of an upload never goes back while more is sent.
pub proof fn law_gauge_never_goes_back(
    earlier: TransferPopup,
    earlier_progress: TransferProgress,
    later: TransferPopup,
    later_progress: TransferProgress,
    area: Rect,
)
    requires
        is_transfer_popup(earlier, earlier_progress, area),
        is_transfer_popup(later, later_progress, area),
        0 < earlier_progress.total == later_progress.total,
        earlier_progress.sent <= later_progress.sent,
    ensures
        ({
            &&& earlier.progress matches Some((first, _))
            &&& later.progress matches Some((second, _))
            &&& first <= second
        }),
{
}

/// Each mode has its popup: an upload goes before everything, the summary and
/// the picker are shown in their modes, and nothing is shown in any other. The
/// popups have their extents, as far as the screen has room: 64 by 5 for an
/// upload, 62 by 12 for the summary, and for the picker 78 columns and all
/// lines but four, within 8 and 22. All of them lie in the middle.
pub proof fn law_each_mode_has_its_popup<P>(
    popup: Popup,
    state: TuiState<P>,
    cwd: Seq<char>,
    area: Rect,
)
    requires
        is_popup(popup, state, cwd, area),
    ensures
        ({
            let has_extent = |shown: Rect, width: int, height: int|
                {
                    &&& shown.width == (if width <= area.width {
                        width
                    } else {
                        area.width as int
                    })
                    &&& shown.height == (if height <= area.height {
                        height
                    } else {
                        area.height as int
                    })
                    &&& area.x + area.width <= 0xffff && area.y + area.height <= 0xffff ==> {
                        let right = area.x + area.width - shown.x - shown.width;
                        let below = area.y + area.height - shown.y - shown.height;
                        &&& area.x <= shown.x
                        &&& area.y <= shown.y
                        &&& 0 <= right - (shown.x - area.x) <= 1
                        &&& 0 <= below - (shown.y - area.y) <= 1
                    }
                };
            &&& popup matches Popup::Transfer(shown) ==> has_extent(shown.area, 64, 5)
            &&& popup matches Popup::Summary(shown) ==> has_extent(shown.area, 62, 12)
            &&& popup matches Popup::Picker(shown) ==> {
                &&& area.height < 12 ==> has_extent(shown.area, 78, 8)
                &&& 12 <= area.height <= 26 ==> has_extent(shown.area, 78, area.height - 4)
                &&& area.height > 26 ==> has_extent(shown.area, 78, 22)
            }
        }),
        state.transfer is Some ==> popup is Transfer,
        state.transfer is None ==> match state.mode {
            TuiMode::CommandSummary => popup is Summary,
            TuiMode::FilePicker => if state.file_picker is Some {
                popup is Picker
            } else {
                popup is Hidden
            },
            TuiMode::CommandPrefix => popup is Hidden,
            TuiMode::Session => popup is Hidden,
        },
{
}

/// The status line reads from left to right: how to get help, the status, the
/// kind of terminal, and the target with its port. Only the help is bold.
pub proof fn law_status_line_reads<P>(spans: Seq<StatusSpan>, state: TuiState<P>)
    requires
        is_status_line(spans, state),
    ensures
        spans.len() == 5,
        spans[0].text@ + spans[1].text@ + spans[2].text@ + spans[3].text@ + spans[4].text@
            == " CTRL-A Z for help "@ + "| "@ + state.status@ + " | VT100 | "@ + (state.target@
            + ":"@ + crate::text::decimal(state.port as nat) + " "@),
        forall|i: int| 0 <= i < 5 ==> ((#[trigger] spans[i]).bold <==> i == 0),
{
}

/// The remote terminal and the status line share the screen out: each line is
/// the one's or the other's, the status has the last where there are two, and
/// both are as wide as the screen.
pub proof fn law_screen_is_shared_out(terminal: Rect, status: Rect, area: Rect)
    requires
        are_screen_parts(terminal, status, area),
        area.y + area.height <= 0xffff,
    ensures
        terminal.x == area.x && status.x == area.x,
        terminal.width == area.width && status.width == area.width,
        terminal.y == area.y,
        status.y == terminal.y + terminal.height,
        status.y + status.height == area.y + area.height,
        area.height >= 2 ==> status.height == 1,
        area.height < 2 ==> status.height == 0,
{
}

/// The command summary lists the letters of the commands and says how to call
/// and how to leave.
pub proof fn law_summary_lists_the_commands(popup: SummaryPopup, area: Rect)
    requires
        is_summary_popup(popup, area),
    ensures
        popup.title@ == " Command Summary "@,
        popup.lines@.len() == 9,
        popup.lines@[0]@ == ""@,
        popup.lines@[1]@ == "  Commands can be called by CTRL-A <key>"@,
        popup.lines@[2]@ == ""@,
        popup.lines@[3]@ == "  Send files................S"@,
        popup.lines@[4]@ == "  Clear Screen..............C"@,
        popup.lines@[5]@ == "  Quit......................Q"@,
        popup.lines@[6]@ == "  Help screen...............Z"@,
        popup.lines@[7]@ == ""@,
        popup.lines@[8]@ == "  Select function or press Enter for none."@,
{
}

/// Inside its border the picker has the path in the first line, the help in
/// the last, and the list in all that lie between, where there are three lines
/// at least; the path is the directory's.
pub proof fn law_picker_is_laid_out<P>(
    popup: PickerPopup,
    picker: FilePicker<P>,
    cwd: Seq<char>,
    area: Rect,
)
    requires
        is_drawn_picker(popup, picker, cwd, area),
        area.x + area.width <= 0xffff,
        area.y + area.height <= 0xffff,
        area.height >= 5,
        area.width >= 2,
    ensures
        popup.title@ == " Send file (YMODEM) "@,
        popup.path_label@ == " Path: "@,
        popup.path@ == cwd,
        popup.help@ == " Enter open/send \u{b7} Backspace parent \u{b7} Esc cancel"@,
        popup.path_area.y == popup.area.y + 1,
        popup.path_area.height == 1,
        popup.list_area.y == popup.area.y + 2,
        popup.list_area.y + popup.list_area.height == popup.help_area.y,
        popup.help_area.y + 2 == popup.area.y + popup.area.height,
        popup.help_area.height == 1,
        popup.path_area.x == popup.area.x + 1,
        popup.path_area.x + popup.path_area.width + 1 == popup.area.x + popup.area.width,
        popup.list_area.x == popup.path_area.x && popup.list_area.width == popup.path_area.width,
        popup.help_area.x == popup.path_area.x && popup.help_area.width == popup.path_area.width,
        crate::file_picker::is_window(
            popup.rows@,
            picker.entries@,
            picker.selected,
            popup.list_area.height as usize,
        ),
{
    let inside = crate::screen::inset(picker_area(area));
    let parts = choose|parts: Seq<Rect>|
        {
            &&& #[trigger] is_picker_popup(popup, picker, cwd, picker_area(area), parts)
            &&& are_picker_parts(parts, inside)
        };
    assert(parts[0].x == inside.x && parts[1].x == inside.x && parts[2].x == inside.x);
}

/// Whatever a session shows as a popup stays on the screen.
pub proof fn law_popups_stay_on_screen<P>(
    popup: Popup,
    state: TuiState<P>,
    cwd: Seq<char>,
    area: Rect,
)
    requires
        popup_extent(state, area) matches Some((width, height)) ==> crate::screen::centre_fits(
            width,
            height,
            area,
        ),
        is_popup(popup, state, cwd, area),
    ensures
        match popup {
            Popup::Hidden => popup_extent(state, area) is None,
            Popup::Transfer(shown) => shown.area.within(area),
            Popup::Summary(shown) => shown.area.within(area),
            Popup::Picker(shown) => {
                &&& shown.area.within(area)
                &&& shown.path_area.within(shown.area)
                &&& shown.list_area.within(shown.area)
                &&& shown.help_area.within(shown.area)
            },
        },
{
    if popup_extent(state, area) is Some {
        let (width, height) = popup_extent(state, area)->0;
        crate::screen::law_popup_stays_within_area(width, height, area);
        if let Popup::Picker(shown) = popup {
            let picker = state.file_picker->0;
            let inside = crate::screen::inset(picker_area(area));
            crate::screen::law_inset_stays_within_area(picker_area(area));
            let parts = choose|parts: Seq<Rect>|
                {
                    &&& #[trigger] is_picker_popup(shown, picker, cwd, picker_area(area), parts)
                    &&& are_picker_parts(parts, inside)
                };
            assert(parts[0].within(inside) && parts[1].within(inside) && parts[2].within(inside));
        }
    }
}

/// On a screen of three lines or more the picker shows the selected entry: one
/// of its lines, and that within the list, is the entry's with the marker.
pub proof fn law_selected_entry_is_shown<P>(
    popup: PickerPopup,
    picker: FilePicker<P>,
    cwd: Seq<char>,
    area: Rect,
)
    requires
        is_drawn_picker(popup, picker, cwd, area),
        picker.selected < picker.entries@.len(),
        area.y + area.height <= u16::MAX,
        area.height >= 3,
    ensures
        popup.rows@.len() <= popup.list_area.height,
        exists|k: int|
            0 <= k < popup.rows@.len() && (#[trigger] popup.rows@[k]).selected
                && popup.rows@[k].text@ == "> "@ + picker.entries@[picker.selected as int].name@,
{
    let inside = crate::screen::inset(picker_area(area));
    let parts = choose|parts: Seq<Rect>|
        {
            &&& #[trigger] is_picker_popup(popup, picker, cwd, picker_area(area), parts)
            &&& are_picker_parts(parts, inside)
        };
    let visible = parts[1].height as usize;
    assert(inside.bottom() - inside.y >= 1);
    assert(picker.entries@.len() == picker.entries.len());
    crate::file_picker::law_selected_entry_is_visible(
        picker.entries@.len(),
        picker.selected,
        visible,
    );
    let k = picker.selected - crate::file_picker::window_start(picker.selected, visible);
    assert(popup.rows@[k].selected);
}

/// The area of the remote terminal is as large as its emulator's screen, so
/// that nothing of it is hidden.
pub proof fn law_terminal_area_fits_emulator(terminal: Rect, status: Rect, area: Rect)
    requires
        are_screen_parts(terminal, status, area),
        area.y + area.height <= u16::MAX,
        area.width >= 1,
        area.height >= 1,
    ensures
        crate::screen::remote_size(
            crate::screen::Size { width: area.width, height: area.height },
        ) == (terminal.height, terminal.width),
{
}

} // verus!
