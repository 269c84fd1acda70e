//! Screen geometry: the remote terminal, the status line and the popups.

use vstd::prelude::*;

verus! {

/// The size of a terminal, in cells.
#[derive(Clone, Copy, Debug, PartialEq, Eq, Structural)]
pub struct Size {
    pub width: u16,
    pub height: u16,
}

impl Size {
    /// A size.
    pub fn new(width: u16, height: u16) -> (size: Self)
        ensures
            size == (Size { width, height }),
    {
        Size { width, height }
    }
}

/// An area of the screen, in cells.
#[derive(Clone, Copy, Debug, PartialEq, Eq, Structural)]
pub struct Rect {
    pub x: u16,
    pub y: u16,
    pub width: u16,
    pub height: u16,
}

/// The smaller of two numbers.
pub open spec fn min(left: int, right: int) -> int {
    if left < right {
        left
    } else {
        right
    }
}

impl Rect {
    /// The column after the last one, as far as columns go.
    pub open spec fn right(self) -> int {
        min(self.x + self.width, u16::MAX as int)
    }

    /// The row after the last one, as far as rows go.
    pub open spec fn bottom(self) -> int {
        min(self.y + self.height, u16::MAX as int)
    }

    /// No part of the area lies outside the other.
    pub open spec fn within(self, outer: Rect) -> bool {
        &&& outer.x <= self.x
        &&& outer.y <= self.y
        &&& self.x + self.width <= outer.x + outer.width
        &&& self.y + self.height <= outer.y + outer.height
    }
}

/// The `vt100` terminal emulator.
#[verifier::external_type_specification]
#[verifier::external_body]
pub struct ExParser(tui_term::vt100::Parser);

/// The rows and columns of an emulator's screen: what `Parser::screen` and
/// `Screen::size` return.
pub uninterp spec fn emulator_size(parser: tui_term::vt100::Parser) -> (u16, u16);

/// How many lines an emulator keeps at most that have left its screen: what
/// `Parser::new` was told.
pub uninterp spec fn emulator_scrollback(parser: tui_term::vt100::Parser) -> usize;

/// A cell of an emulator's screen: what the methods of `vt100::Cell` return. A
/// colour is no bytes for the default, one for an indexed colour, and three
/// for red, green and blue.
pub struct CellView {
    pub text: Seq<char>,
    pub is_wide: bool,
    pub is_wide_continuation: bool,
    pub foreground: Seq<u8>,
    pub background: Seq<u8>,
    pub bold: bool,
    pub italic: bool,
    pub underline: bool,
    pub inverse: bool,
}

/// The cells of an emulator's screen, row by row: what `Screen::cell` returns
/// for the rows and columns of its size when it is not scrolled back.
pub uninterp spec fn emulator_rows(parser: tui_term::vt100::Parser) -> Seq<Seq<CellView>>;

/// The row and the column of an emulator's cursor: what `Parser::screen` and
/// `Screen::cursor_position` return.
pub uninterp spec fn emulator_cursor(parser: tui_term::vt100::Parser) -> (u16, u16);

/// A cell without text, in the default colours.
pub open spec fn blank_cell() -> CellView {
    CellView {
        text: Seq::empty(),
        is_wide: false,
        is_wide_continuation: false,
        foreground: Seq::empty(),
        background: Seq::empty(),
        bold: false,
        italic: false,
        underline: false,
        inverse: false,
    }
}

/// The cells of a screen that becomes `rows` high and `cols` wide: those that
/// it has are kept where they are, and new ones are blank.
pub open spec fn resized(cells: Seq<Seq<CellView>>, rows: u16, cols: u16) -> Seq<Seq<CellView>> {
    Seq::new(
        rows as nat,
        |row: int|
            Seq::new(
                cols as nat,
                |col: int|
                    if row < cells.len() && col < cells[row].len() {
                        cells[row][col]
                    } else {
                        blank_cell()
                    },
            ),
    )
}

/// Cells that fill a screen of the given rows and columns.
pub open spec fn fills(cells: Seq<Seq<CellView>>, size: (u16, u16)) -> bool {
    &&& cells.len() == size.0
    &&& forall|row: int| 0 <= row < cells.len() ==> (#[trigger] cells[row]).len() == size.1
}

/// Calls `vt100::Parser::new`, which makes an emulator with a blank screen of
/// the given size that keeps the given number of lines, and its cursor in the
/// first cell; one without rows has no last row, which `new` needs.
#[verifier::external_body]
fn new_emulator(rows: u16, cols: u16, scrollback: usize) -> (parser: tui_term::vt100::Parser)
    requires
        rows > 0,
    ensures
        emulator_size(parser) == (rows, cols),
        emulator_scrollback(parser) == scrollback,
        emulator_rows(parser) == resized(Seq::empty(), rows, cols),
        emulator_cursor(parser) == (0u16, 0u16),
{
    tui_term::vt100::Parser::new(rows, cols, scrollback)
}

/// Calls `vt100::Parser::screen` and `Screen::size`; the screen has a cell in
/// each of the rows and columns.
#[verifier::external_body]
fn size_of_emulator(parser: &tui_term::vt100::Parser) -> (size: (u16, u16))
    ensures
        size == emulator_size(*parser),
        fills(emulator_rows(*parser), size),
{
    parser.screen().size()
}

/// Calls `vt100::Parser::set_size`, after which the screen has the given size:
/// it keeps the cells that lie within both sizes, and any others are blank.
/// The cursor stays where it is, or goes to the last row or column where it
/// would be outside. How many lines are kept stays as it was.
#[verifier::external_body]
fn set_emulator_size(parser: &mut tui_term::vt100::Parser, rows: u16, cols: u16)
    requires
        rows > 0,
        cols > 0,
    ensures
        emulator_size(*final(parser)) == (rows, cols),
        emulator_scrollback(*final(parser)) == emulator_scrollback(*old(parser)),
        emulator_rows(*final(parser)) == resized(emulator_rows(*old(parser)), rows, cols),
        emulator_cursor(*final(parser)).0 == min(
            emulator_cursor(*old(parser)).0 as int,
            rows - 1,
        ),
        emulator_cursor(*final(parser)).1 == min(
            emulator_cursor(*old(parser)).1 as int,
            cols - 1,
        ),
{
    parser.set_size(rows, cols);
}

// ---------------------------------------------------------------------------
// The remote terminal
// ---------------------------------------------------------------------------

/// How many lines the emulator keeps that have left the screen.
pub const SCROLLBACK_LINES: usize = 10_000;

/// The rows and columns that the remote terminal gets: all but the status
/// line, and never less than one of either.
pub open spec fn remote_size(size: Size) -> (u16, u16) {
    (
        if size.height <= 2 {
            1
        } else {
            (size.height - 1) as u16
        },
        if size.width == 0 {
            1
        } else {
            size.width
        },
    )
}

/// The rows and columns that the remote terminal gets.
pub fn remote_parser_size(size: Size) -> (result: (u16, u16))
    ensures
        result == remote_size(size),
{
    let rows: u16 = if size.height <= 2 {
        1
    } else {
        size.height - 1
    };
    let cols: u16 = if size.width == 0 {
        1
    } else {
        size.width
    };
    (rows, cols)
}

/// The emulator of the remote terminal, for a terminal of the given size; its
/// screen is blank.
pub fn new_remote_parser(size: Size) -> (parser: tui_term::vt100::Parser)
    ensures
        emulator_size(parser) == remote_size(size),
        emulator_scrollback(parser) == SCROLLBACK_LINES,
        emulator_scrollback(parser) == 10_000,
        emulator_rows(parser) == resized(Seq::empty(), remote_size(size).0, remote_size(size).1),
        emulator_cursor(parser) == (0u16, 0u16),
{
    let (rows, cols) = remote_parser_size(size);
    new_emulator(rows, cols, SCROLLBACK_LINES)
}

/// Fits the emulator to a terminal of the given size, with what its screen
/// shows left in place; one that fits already is left alone.
pub fn resize_remote_parser(parser: &mut tui_term::vt100::Parser, size: Size)
    ensures
        emulator_size(*final(parser)) == remote_size(size),
        emulator_scrollback(*final(parser)) == emulator_scrollback(*old(parser)),
        fills(emulator_rows(*old(parser)), emulator_size(*old(parser))),
        emulator_rows(*final(parser)) == resized(
            emulator_rows(*old(parser)),
            remote_size(size).0,
            remote_size(size).1,
        ),
        if emulator_size(*old(parser)) == remote_size(size) {
            *final(parser) == *old(parser)
        } else {
            let (row, col) = emulator_cursor(*old(parser));
            &&& emulator_cursor(*final(parser)).0 == min(row as int, remote_size(size).0 - 1)
            &&& emulator_cursor(*final(parser)).1 == min(col as int, remote_size(size).1 - 1)
        },
{
    let (rows, cols) = remote_parser_size(size);
    let current = size_of_emulator(parser);
    if current.0 != rows || current.1 != cols {
        set_emulator_size(parser, rows, cols);
    } else {
        proof {
            lemma_same_size_changes_nothing(emulator_rows(*parser), rows, cols);
        }
    }
}

// ---------------------------------------------------------------------------
// Popups
// ---------------------------------------------------------------------------

/// Where an extent of `size` begins that is centred in `outer` cells from
/// `start` on.
pub open spec fn centred(size: u16, start: u16, outer: u16) -> int {
    start + (outer - min(size as int, outer as int)) / 2
}

/// Whether a popup centred in an area lies within the range of coordinates.
pub open spec fn centre_fits(width: u16, height: u16, area: Rect) -> bool {
    &&& centred(width, area.x, area.width) <= u16::MAX
    &&& centred(height, area.y, area.height) <= u16::MAX
}

/// A popup of the given size, or of the area's where that is smaller, in the
/// middle of an area.
pub open spec fn centred_area(width: u16, height: u16, area: Rect) -> Rect {
    Rect {
        x: centred(width, area.x, area.width) as u16,
        y: centred(height, area.y, area.height) as u16,
        width: min(width as int, area.width as int) as u16,
        height: min(height as int, area.height as int) as u16,
    }
}

/// A popup in the middle of an area.
pub fn centered_rect(width: u16, height: u16, area: Rect) -> (rect: Rect)
    requires
        centre_fits(width, height, area),
    ensures
        rect == centred_area(width, height, area),
{
    let width: u16 = if width < area.width {
        width
    } else {
        area.width
    };
    let height: u16 = if height < area.height {
        height
    } else {
        area.height
    };
    Rect {
        x: area.x + (area.width - width) / 2,
        y: area.y + (area.height - height) / 2,
        width,
        height,
    }
}

/// What a border on all sides leaves of an area.
pub open spec fn inset(area: Rect) -> Rect {
    Rect {
        x: min(area.x + 1, area.right()) as u16,
        y: min(area.y + 1, area.bottom()) as u16,
        width: (if area.width < 2 {
            0
        } else {
            area.width - 2
        }) as u16,
        height: (if area.height < 2 {
            0
        } else {
            area.height - 2
        }) as u16,
    }
}

/// Calls `Block::inner` of `ratatui` for a block with a border on all sides
/// and no padding: one cell less on each side, or nothing where there is not
/// as much.
#[verifier::external_body]
pub(crate) fn inside_border(area: Rect) -> (inner: Rect)
    ensures
        inner == inset(area),
{
    let outer = ratatui::layout::Rect {
        x: area.x,
        y: area.y,
        width: area.width,
        height: area.height,
    };
    let inner = ratatui::widgets::Block::default().borders(ratatui::widgets::Borders::ALL).inner(
        outer,
    );
    Rect { x: inner.x, y: inner.y, width: inner.width, height: inner.height }
}

/// How high a row of a layout is to be.
#[derive(Clone, Copy, Debug, PartialEq, Eq, Structural)]
pub enum RowHeight {
    Length(u16),
    Min(u16),
}

/// The height of the rows with a fixed height, together.
pub open spec fn fixed_height(rows: Seq<RowHeight>) -> int
    decreases rows.len(),
{
    if rows.len() == 0 {
        0
    } else {
        fixed_height(rows.drop_last()) + match rows.last() {
            RowHeight::Length(height) => height as int,
            RowHeight::Min(_) => 0,
        }
    }
}

/// The height of the rows when the one flexible row among them gets `spare`
/// lines.
pub open spec fn height_with(rows: Seq<RowHeight>, spare: int) -> int
    decreases rows.len(),
{
    if rows.len() == 0 {
        0
    } else {
        height_with(rows.drop_last(), spare) + match rows.last() {
            RowHeight::Length(height) => height as int,
            RowHeight::Min(_) => spare,
        }
    }
}

/// One row is flexible, and there is room for it, whatever becomes of the
/// others.
pub open spec fn one_is_flexible(rows: Seq<RowHeight>, flexible: int, height: int) -> bool {
    &&& 0 <= flexible < rows.len()
    &&& forall|i: int| 0 <= i < rows.len() ==> (#[trigger] rows[i] is Min <==> i == flexible)
    &&& rows[flexible]->Min_0 <= i16::MAX
    &&& rows[flexible]->Min_0 <= height
}

/// One row is flexible, and there is room for it and all the others.
pub open spec fn have_room(rows: Seq<RowHeight>, flexible: int, height: int) -> bool {
    &&& one_is_flexible(rows, flexible, height)
    &&& fixed_height(rows) + rows[flexible]->Min_0 <= height
}

/// Parts that lie one below the other, none reaching into the next.
pub open spec fn are_in_order(parts: Seq<Rect>) -> bool {
    forall|i: int, j: int| #![trigger parts[i], parts[j]]
        0 <= i < j < parts.len() ==> parts[i].y + parts[i].height <= parts[j].y
}

/// Parts of an area: as wide as it, and within it.
pub open spec fn are_rows_of(parts: Seq<Rect>, area: Rect) -> bool {
    forall|i: int| #![trigger parts[i]]
        0 <= i < parts.len() ==> {
            &&& parts[i].x == area.x
            &&& parts[i].width == area.width
            &&& area.y <= parts[i].y
            &&& parts[i].y + parts[i].height <= area.bottom()
        }
}

/// Parts of an area, one below the other without gaps, of the given heights
/// and with the flexible row as high as the rest allows.
pub open spec fn are_stacked_rows(parts: Seq<Rect>, rows: Seq<RowHeight>, area: Rect) -> bool {
    let spare = area.bottom() - area.y - fixed_height(rows);
    forall|i: int| #![trigger parts[i]]
        0 <= i < parts.len() ==> {
            &&& parts[i].y == area.y + height_with(rows.take(i), spare)
            &&& parts[i].y + parts[i].height == area.y + height_with(rows.take(i + 1), spare)
        }
}

/// Calls `Layout::split` of `ratatui`, which cuts an area into rows. There is
/// one part for each row, each as wide as the area, and none reaches above or
/// below it. Where one row is flexible and has room, the rows lie below one
/// another, and the flexible one has at least its least height: its constraint
/// is stronger than those of the fixed rows, and the one against overlapping
/// is stronger still. Where all have room, there are no gaps, the fixed rows
/// have their heights and the flexible one what is left. The heights come from
/// a constraint solver; which of the fixed rows yield where there is no room
/// for all is left open, and nothing is claimed of that.
#[verifier::external_body]
pub(crate) fn split_rows(area: Rect, rows: &Vec<RowHeight>) -> (parts: Vec<Rect>)
    ensures
        parts@.len() == rows@.len(),
        are_rows_of(parts@, area),
        forall|flexible: int| #[trigger]
            one_is_flexible(rows@, flexible, area.bottom() - area.y) ==> are_in_order(parts@)
                && parts@[flexible].height >= rows@[flexible]->Min_0,
        forall|flexible: int| #[trigger]
            have_room(rows@, flexible, area.bottom() - area.y) ==> are_stacked_rows(
                parts@,
                rows@,
                area,
            ),
{
    let outer = ratatui::layout::Rect {
        x: area.x,
        y: area.y,
        width: area.width,
        height: area.height,
    };
    let heights = rows.iter().map(|row| match row {
        RowHeight::Length(height) => ratatui::layout::Constraint::Length(*height),
        RowHeight::Min(height) => ratatui::layout::Constraint::Min(*height),
    });
    let parts = ratatui::layout::Layout::vertical(heights).split(outer);
    let converted = parts.iter().map(
        |part| Rect { x: part.x, y: part.y, width: part.width, height: part.height },
    );
    converted.collect()
}

// ---------------------------------------------------------------------------
// Laws
// ---------------------------------------------------------------------------

/// A popup never reaches outside the area it is centred in, is as large as
/// asked for where there is room and as large as the area where there is not,
/// and has equal margins up to one cell.
pub proof fn law_popup_stays_within_area(width: u16, height: u16, area: Rect)
    requires
        centre_fits(width, height, area),
    ensures
        centred_area(width, height, area).within(area),
        width <= area.width ==> centred_area(width, height, area).width == width,
        height <= area.height ==> centred_area(width, height, area).height == height,
        width > area.width ==> centred_area(width, height, area).width == area.width,
        height > area.height ==> centred_area(width, height, area).height == area.height,
        ({
            let popup = centred_area(width, height, area);
            let left = popup.x - area.x;
            let right = area.x + area.width - popup.x - popup.width;
            let above = popup.y - area.y;
            let below = area.y + area.height - popup.y - popup.height;
            &&& left >= 0
            &&& above >= 0
            &&& left <= right <= left + 1
            &&& above <= below <= above + 1
        }),
{
}

/// What a border leaves lies within what it encloses: all but one cell on each
/// side, where there are two, and nothing where there are not.
pub proof fn law_inset_stays_within_area(area: Rect)
    ensures
        inset(area).within(area),
        area.width >= 2 && area.x + area.width <= 0xffff ==> {
            &&& inset(area).x == area.x + 1
            &&& inset(area).x + inset(area).width + 1 == area.x + area.width
        },
        area.height >= 2 && area.y + area.height <= 0xffff ==> {
            &&& inset(area).y == area.y + 1
            &&& inset(area).y + inset(area).height + 1 == area.y + area.height
        },
        area.width < 2 ==> inset(area).width == 0,
        area.height < 2 ==> inset(area).height == 0,
{
}

proof fn lemma_same_size_changes_nothing(cells: Seq<Seq<CellView>>, rows: u16, cols: u16)
    requires
        fills(cells, (rows, cols)),
    ensures
        resized(cells, rows, cols) == cells,
{
    assert forall|row: int| 0 <= row < rows implies #[trigger] resized(cells, rows, cols)[row]
        == cells[row] by {
        assert(resized(cells, rows, cols)[row] =~= cells[row]);
    }
    assert(resized(cells, rows, cols) =~= cells);
}

/// Resizing loses nothing that has room: the cells within both sizes are kept,
/// any others are without text and style, and a screen that grows and shrinks
/// back is as it was.
pub proof fn law_resizing_keeps_what_has_room(
    cells: Seq<Seq<CellView>>,
    before: (u16, u16),
    after: (u16, u16),
)
    requires
        fills(cells, before),
    ensures
        fills(resized(cells, after.0, after.1), after),
        forall|row: int, col: int|
            0 <= row < before.0 && row < after.0 && 0 <= col < before.1 && col < after.1
                ==> #[trigger] resized(cells, after.0, after.1)[row][col] == cells[row][col],
        forall|row: int, col: int|
            0 <= row < after.0 && 0 <= col < after.1 && (row >= before.0 || col >= before.1) ==> {
                let cell = #[trigger] resized(cells, after.0, after.1)[row][col];
                &&& cell.text.len() == 0
                &&& cell.foreground.len() == 0
                &&& cell.background.len() == 0
                &&& !cell.is_wide && !cell.is_wide_continuation
                &&& !cell.bold && !cell.italic && !cell.underline && !cell.inverse
            },
        before.0 <= after.0 && before.1 <= after.1 ==> resized(
            resized(cells, after.0, after.1),
            before.0,
            before.1,
        ) == cells,
{
    if before.0 <= after.0 && before.1 <= after.1 {
        let grown = resized(cells, after.0, after.1);
        let back = resized(grown, before.0, before.1);
        assert forall|row: int| 0 <= row < before.0 implies #[trigger] back[row] == cells[row] by {
            assert(grown[row].len() == after.1);
            assert(back[row] =~= cells[row]);
        }
        assert(back =~= cells);
    }
}

/// The remote terminal always has a cell, leaves one line for the status where
/// there are two, and is as wide as the terminal.
pub proof fn law_remote_terminal_leaves_status_line(size: Size)
    ensures
        remote_size(size).0 >= 1,
        remote_size(size).1 >= 1,
        size.height >= 2 ==> remote_size(size).0 + 1 == size.height,
        size.height < 2 ==> remote_size(size).0 == 1,
        size.width >= 1 ==> remote_size(size).1 == size.width,
        size.width == 0 ==> remote_size(size).1 == 1,
{
}

} // verus!
