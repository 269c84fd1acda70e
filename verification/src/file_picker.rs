//! The file picker: a cursor in a directory listing.
//!
//! Paths are of any type that the caller chooses; the picker only passes them
//! on. What a path's parent is depends on the platform, so callers say it.

use crate::keymap::{KeyCode, KeyEvent};
use crate::listing::{directory_entries, DirectoryChild, FilePickerEntry};
use crate::text::join2;
use vstd::prelude::*;

verus! {

/// A directory listing with one entry selected.
pub struct FilePicker<P> {
    pub cwd: P,
    pub entries: Vec<FilePickerEntry<P>>,
    pub selected: usize,
}

/// What a key press in the picker asks the caller to do.
pub enum PickerAction<P> {
    /// No more than to draw the picker again.
    Nothing,
    /// Close the picker.
    Cancel,
    /// Read the directory `cwd` and hand the result to `reload`.
    Read,
    /// Send this file.
    Upload(P),
}

/// What a key means in the picker.
#[derive(Clone, Copy, Debug, PartialEq, Eq, Structural)]
pub enum PickerCommand {
    Ignore,
    Cancel,
    Move(isize),
    First,
    Last,
    Parent,
    Enter,
    Refresh,
}

/// A line of the picker.
pub struct PickerRow {
    pub text: String,
    pub selected: bool,
}

// ---------------------------------------------------------------------------
// What keys mean, and where the cursor goes
// ---------------------------------------------------------------------------

/// What a key means in the picker.
pub open spec fn command_of(key: KeyEvent) -> PickerCommand {
    match key.code {
        KeyCode::Esc => PickerCommand::Cancel,
        KeyCode::Up => PickerCommand::Move(-1 as isize),
        KeyCode::Down => PickerCommand::Move(1),
        KeyCode::PageUp => PickerCommand::Move(-10 as isize),
        KeyCode::PageDown => PickerCommand::Move(10),
        KeyCode::Home => PickerCommand::First,
        KeyCode::End => PickerCommand::Last,
        KeyCode::Backspace | KeyCode::Left => PickerCommand::Parent,
        KeyCode::Enter | KeyCode::Right => PickerCommand::Enter,
        KeyCode::Char(character) => if character == 'c' && key.modifiers.control {
            PickerCommand::Cancel
        } else if character == 'r' && key.modifiers.control {
            PickerCommand::Refresh
        } else if character == 'k' {
            PickerCommand::Move(-1 as isize)
        } else if character == 'j' {
            PickerCommand::Move(1)
        } else {
            PickerCommand::Ignore
        },
        _ => PickerCommand::Ignore,
    }
}

/// The last position of a list, or zero for an empty one.
pub open spec fn last_index(len: nat) -> int {
    if len == 0 {
        0
    } else {
        len - 1
    }
}

/// A cursor kept within a list of the given length.
pub open spec fn clamped(position: int, len: nat) -> int {
    if position < 0 {
        0
    } else if position > last_index(len) {
        last_index(len)
    } else {
        position
    }
}

/// The first line of a window of `visible` lines that ends at the selected
/// entry or, near the top, begins at the first.
pub open spec fn window_start(selected: usize, visible: usize) -> int {
    let end = if selected == usize::MAX {
        usize::MAX as int
    } else {
        selected + 1
    };
    if end < visible {
        0
    } else {
        end - visible
    }
}

/// How many lines such a window shows of a list.
pub open spec fn window_len(len: nat, selected: usize, visible: usize) -> int {
    let left = len - window_start(selected, visible);
    if left < 0 {
        0
    } else if left < visible {
        left
    } else {
        visible as int
    }
}

/// The text of a line: a marker in front of the selected entry's name, and as
/// much space in front of any other.
pub open spec fn row_text(name: Seq<char>, selected: bool) -> Seq<char> {
    if selected {
        "> "@ + name
    } else {
        "  "@ + name
    }
}

/// The lines that a window of `visible` lines shows of a list.
pub open spec fn is_window<P>(
    rows: Seq<PickerRow>,
    entries: Seq<FilePickerEntry<P>>,
    selected: usize,
    visible: usize,
) -> bool {
    &&& rows.len() == window_len(entries.len(), selected, visible)
    &&& forall|k: int| #![trigger rows[k]]
        0 <= k < rows.len() ==> {
            let index = window_start(selected, visible) + k;
            &&& rows[k].selected == (index == selected)
            &&& rows[k].text@ == row_text(entries[index].name@, index == selected)
        }
}

/// What a key press does to a picker, and what it asks for. `parent` is the
/// parent of the picker's directory, if it has one.
pub open spec fn picker_step<P: Clone>(
    before: FilePicker<P>,
    key: KeyEvent,
    parent: Option<P>,
    after: FilePicker<P>,
    action: PickerAction<P>,
) -> bool {
    &&& after.entries == before.entries
    &&& match command_of(key) {
        PickerCommand::Ignore => {
            &&& action == PickerAction::<P>::Nothing
            &&& after == before
        },
        PickerCommand::Cancel => {
            &&& action == PickerAction::<P>::Cancel
            &&& after == before
        },
        PickerCommand::Move(delta) => {
            &&& action == PickerAction::<P>::Nothing
            &&& after.cwd == before.cwd
            &&& after.selected == clamped(
                before.selected + delta,
                before.entries@.len(),
            )
        },
        PickerCommand::First => {
            &&& action == PickerAction::<P>::Nothing
            &&& after.cwd == before.cwd
            &&& after.selected == 0
        },
        PickerCommand::Last => {
            &&& action == PickerAction::<P>::Nothing
            &&& after.cwd == before.cwd
            &&& after.selected == last_index(before.entries@.len())
        },
        PickerCommand::Parent => match parent {
            Some(path) => {
                &&& action == PickerAction::<P>::Read
                &&& after.cwd == path
                &&& after.selected == 0
            },
            None => {
                &&& action == PickerAction::<P>::Nothing
                &&& after == before
            },
        },
        PickerCommand::Enter => if before.selected >= before.entries@.len() {
            &&& action == PickerAction::<P>::Nothing
            &&& after == before
        } else {
            let entry = before.entries@[before.selected as int];
            if entry.is_dir {
                &&& action == PickerAction::<P>::Read
                &&& cloned(entry.path, after.cwd)
                &&& after.selected == 0
            } else {
                &&& action matches PickerAction::Upload(path)
                &&& cloned(entry.path, path)
                &&& after == before
            }
        },
        PickerCommand::Refresh => {
            &&& action == PickerAction::<P>::Read
            &&& after == before
        },
    }
}

/// What a directory that was read, or could not be, does to a picker; `parent`
/// is the parent of the picker's directory, if it has one.
pub open spec fn reload_step<P>(
    before: FilePicker<P>,
    parent: Option<P>,
    outcome: Result<Vec<DirectoryChild<P>>, String>,
    after: FilePicker<P>,
    result: Result<(), String>,
) -> bool {
    match outcome {
        Ok(children) => {
            &&& result == Ok::<(), String>(())
            &&& after.cwd == before.cwd
            &&& crate::listing::is_listing(after.shown(), parent, children@)
            &&& after.selected == clamped(before.selected as int, after.entries@.len())
        },
        Err(error) => {
            &&& result == Err::<(), String>(error)
            &&& after == before
        },
    }
}

/// What a key means in the picker.
pub fn picker_command(key: KeyEvent) -> (command: PickerCommand)
    ensures
        command == command_of(key),
{
    match key.code {
        KeyCode::Esc => PickerCommand::Cancel,
        KeyCode::Char('c') if key.modifiers.control => PickerCommand::Cancel,
        KeyCode::Up | KeyCode::Char('k') => PickerCommand::Move(-1),
        KeyCode::Down | KeyCode::Char('j') => PickerCommand::Move(1),
        KeyCode::PageUp => PickerCommand::Move(-10),
        KeyCode::PageDown => PickerCommand::Move(10),
        KeyCode::Home => PickerCommand::First,
        KeyCode::End => PickerCommand::Last,
        KeyCode::Backspace | KeyCode::Left => PickerCommand::Parent,
        KeyCode::Enter | KeyCode::Right => PickerCommand::Enter,
        KeyCode::Char('r') if key.modifiers.control => PickerCommand::Refresh,
        _ => PickerCommand::Ignore,
    }
}

impl<P> FilePicker<P> {
    /// What the picker shows.
    pub open spec fn shown(self) -> Seq<crate::listing::EntryView<P>> {
        crate::listing::entry_views(self.entries@)
    }

    /// The cursor is on an entry, or at zero where there is none.
    pub open spec fn well_formed(self) -> bool {
        self.selected <= last_index(self.entries@.len())
    }

    /// A picker on a directory that has been read.
    pub fn open(cwd: P, parent: Option<P>, children: Vec<DirectoryChild<P>>) -> (picker: Self)
        ensures
            picker.cwd == cwd,
            crate::listing::is_listing(picker.shown(), parent, children@),
            picker.selected == 0,
            picker.well_formed(),
    {
        FilePicker { cwd, entries: directory_entries(parent, children), selected: 0 }
    }

    /// Takes over what reading `cwd` found; the cursor stays where it is, or
    /// goes to the last entry where the list has become too short. Where
    /// reading failed nothing changes, and the error comes back.
    pub fn reload(
        &mut self,
        parent: Option<P>,
        outcome: Result<Vec<DirectoryChild<P>>, String>,
    ) -> (result: Result<(), String>)
        ensures
            reload_step(*old(self), parent, outcome, *final(self), result),
            outcome is Ok ==> final(self).well_formed(),
    {
        match outcome {
            Ok(children) => {
                self.entries = directory_entries(parent, children);
                let last: usize = self.last_entry();
                if self.selected > last {
                    self.selected = last;
                }
                Ok(())
            },
            Err(error) => Err(error),
        }
    }

    fn last_entry(&self) -> (last: usize)
        ensures
            last == last_index(self.entries@.len()),
    {
        if self.entries.len() == 0 {
            0
        } else {
            self.entries.len() - 1
        }
    }

    /// Moves the cursor, no further than to either end of the list.
    pub fn move_selection(&mut self, delta: isize)
        ensures
            final(self).selected == clamped(old(self).selected + delta, old(self).entries@.len()),
            final(self).cwd == old(self).cwd,
            final(self).entries == old(self).entries,
            final(self).well_formed(),
    {
        let last: usize = self.last_entry();
        let target: usize = if delta >= 0 {
            self.selected.saturating_add(delta as usize)
        } else {
            let steps: usize = (-(delta + 1)) as usize;
            self.selected.saturating_sub(steps).saturating_sub(1)
        };
        self.selected =
        if target > last {
            last
        } else {
            target
        };
    }

    /// Goes to the parent directory, where there is one.
    pub fn go_parent(&mut self, parent: Option<P>) -> (action: PickerAction<P>)
        ensures
            final(self).entries == old(self).entries,
            match parent {
                Some(path) => {
                    &&& action == PickerAction::<P>::Read
                    &&& final(self).cwd == path
                    &&& final(self).selected == 0
                },
                None => {
                    &&& action == PickerAction::<P>::Nothing
                    &&& *final(self) == *old(self)
                },
            },
    {
        match parent {
            Some(path) => {
                self.cwd = path;
                self.selected = 0;
                PickerAction::Read
            },
            None => PickerAction::Nothing,
        }
    }
}

impl<P: Clone> FilePicker<P> {
    /// Goes into the selected directory, or sends the selected file. The path
    /// is a clone of the entry's: until the directory has been read the list
    /// stays as it is.
    pub fn enter_selected(&mut self) -> (action: PickerAction<P>)
        ensures
            final(self).entries == old(self).entries,
            if old(self).selected >= old(self).entries@.len() {
                &&& action == PickerAction::<P>::Nothing
                &&& *final(self) == *old(self)
            } else {
                let entry = old(self).entries@[old(self).selected as int];
                if entry.is_dir {
                    &&& action == PickerAction::<P>::Read
                    &&& cloned(entry.path, final(self).cwd)
                    &&& final(self).selected == 0
                } else {
                    &&& action matches PickerAction::Upload(path)
                    &&& cloned(entry.path, path)
                    &&& *final(self) == *old(self)
                }
            },
    {
        if self.selected >= self.entries.len() {
            return PickerAction::Nothing;
        }
        let path = self.entries[self.selected].path.clone();
        if self.entries[self.selected].is_dir {
            self.cwd = path;
            self.selected = 0;
            PickerAction::Read
        } else {
            PickerAction::Upload(path)
        }
    }

    /// Handles a key press; `parent` is the parent of `cwd`, if it has one.
    pub fn handle_key(&mut self, key: KeyEvent, parent: Option<P>) -> (action: PickerAction<P>)
        ensures
            old(self).well_formed() ==> final(self).well_formed(),
            picker_step(*old(self), key, parent, *final(self), action),
    {
        match picker_command(key) {
            PickerCommand::Ignore => PickerAction::Nothing,
            PickerCommand::Cancel => PickerAction::Cancel,
            PickerCommand::Move(delta) => {
                self.move_selection(delta);
                PickerAction::Nothing
            },
            PickerCommand::First => {
                self.selected = 0;
                PickerAction::Nothing
            },
            PickerCommand::Last => {
                self.selected = self.last_entry();
                PickerAction::Nothing
            },
            PickerCommand::Parent => self.go_parent(parent),
            PickerCommand::Enter => self.enter_selected(),
            PickerCommand::Refresh => PickerAction::Read,
        }
    }
}

impl<P> FilePicker<P> {
    /// The lines that a window of `visible` lines shows.
    pub fn visible_rows(&self, visible: usize) -> (rows: Vec<PickerRow>)
        ensures
            is_window(rows@, self.entries@, self.selected, visible),
    {
        let start: usize = self.selected.saturating_add(1).saturating_sub(visible);
        let mut rows: Vec<PickerRow> = Vec::new();
        let mut index: usize = start;
        while index < self.entries.len() && rows.len() < visible
            invariant
                start == window_start(self.selected, visible),
                start <= index,
                index <= self.entries@.len() || index == start,
                rows@.len() == index - start,
                rows@.len() <= visible,
                forall|k: int| #![trigger rows@[k]]
                    0 <= k < rows@.len() ==> {
                        &&& rows@[k].selected == (start + k == self.selected)
                        &&& rows@[k].text@ == row_text(
                            self.entries@[start + k].name@,
                            start + k == self.selected,
                        )
                    },
            decreases self.entries@.len() - index,
        {
            let selected = index == self.selected;
            let marker = if selected {
                "> "
            } else {
                "  "
            };
            rows.push(
                PickerRow { text: join2(marker, self.entries[index].name.as_str()), selected },
            );
            index = index + 1;
        }
        rows
    }
}

// ---------------------------------------------------------------------------
// Laws
// ---------------------------------------------------------------------------

/// Wherever the cursor is, a window with room for a line shows it, and shows
/// no line beyond the list.
pub proof fn law_selected_entry_is_visible(len: nat, selected: usize, visible: usize)
    requires
        selected < len,
        len <= usize::MAX,
        visible > 0,
    ensures
        window_start(selected, visible) <= selected,
        selected < window_start(selected, visible) + window_len(len, selected, visible),
        window_start(selected, visible) + window_len(len, selected, visible) <= len,
{
}

/// The cursor always ends within the list, and a step that does not reach an
/// end is undone by the opposite step.
pub proof fn law_steps_clamp_and_undo(selected: int, delta: int, len: nat)
    ensures
        0 <= clamped(selected + delta, len) <= last_index(len),
        0 <= selected <= last_index(len) && 0 <= selected + delta <= last_index(len) ==> clamped(
            clamped(selected + delta, len) - delta,
            len,
        ) == selected,
{
}

/// The keys of the picker: arrows, `k` and `j` step through the list, the page
/// keys go ten entries and `Home` and `End` to its ends, and none goes beyond
/// those; `Enter` and Right go into the selected directory or send the
/// selected file; `Backspace` and Left go to the parent; `Ctrl-R` reads the
/// directory again; `Esc` and `Ctrl-C` close the picker. No other key does
/// anything, and none changes the list.
pub proof fn law_picker_keys<P: Clone>(
    before: FilePicker<P>,
    key: KeyEvent,
    parent: Option<P>,
    after: FilePicker<P>,
    action: PickerAction<P>,
)
    requires
        picker_step(before, key, parent, after, action),
    ensures
        ({
            let len = before.entries@.len() as int;
            let at = before.selected as int;
            let went = |to: int|
                {
                    &&& action is Nothing
                    &&& after.cwd == before.cwd
                    &&& to < 0 || len == 0 ==> after.selected == 0
                    &&& 0 <= to < len ==> after.selected == to
                    &&& 0 < len <= to ==> after.selected == len - 1
                };
            &&& after.entries == before.entries
            &&& match key.code {
                KeyCode::Up | KeyCode::Char('k') => went(at - 1),
                KeyCode::Down | KeyCode::Char('j') => went(at + 1),
                KeyCode::PageUp => went(at - 10),
                KeyCode::PageDown => went(at + 10),
                KeyCode::Home => went(0),
                KeyCode::End => went(len - 1),
                KeyCode::Enter | KeyCode::Right => if at >= len {
                    action is Nothing && after == before
                } else if before.entries@[at].is_dir {
                    &&& action is Read
                    &&& cloned(before.entries@[at].path, after.cwd)
                    &&& after.selected == 0
                } else {
                    &&& action matches PickerAction::Upload(path)
                    &&& cloned(before.entries@[at].path, path)
                    &&& after == before
                },
                KeyCode::Backspace | KeyCode::Left => match parent {
                    Some(path) => action is Read && after.cwd == path && after.selected == 0,
                    None => action is Nothing && after == before,
                },
                KeyCode::Esc => action is Cancel && after == before,
                KeyCode::Char('c') if key.modifiers.control => action is Cancel && after == before,
                KeyCode::Char('r') if key.modifiers.control => action is Read && after == before,
                _ => action is Nothing && after == before,
            }
        }),
{
}

/// A directory that was read leaves the cursor where it was, or on the last
/// entry where there are fewer now; one that could not be read leaves the
/// picker as it was.
pub proof fn law_reading_keeps_the_place<P>(
    before: FilePicker<P>,
    parent: Option<P>,
    outcome: Result<Vec<DirectoryChild<P>>, String>,
    after: FilePicker<P>,
    result: Result<(), String>,
)
    requires
        reload_step(before, parent, outcome, after, result),
    ensures
        after.cwd == before.cwd,
        result is Ok <==> outcome is Ok,
        outcome matches Ok(children) ==> {
            let len = children@.len() + (if parent is Some {
                1int
            } else {
                0
            });
            &&& after.entries@.len() == len
            &&& before.selected < len ==> after.selected == before.selected
            &&& before.selected >= len > 0 ==> after.selected == len - 1
            &&& len == 0 ==> after.selected == 0
        },
        outcome matches Err(error) ==> after == before && result == Err::<(), String>(error),
{
    if let Ok(children) = outcome {
        crate::listing::law_listing_shows_every_child(after.shown(), parent, children@);
        assert(after.shown().len() == after.entries@.len());
    }
}

/// The window ends at the selected entry, or begins at the first where that
/// fits; it shows the entries from its begin on, one a line, as many as there
/// are and fit. A `>` marks the selected one, and no other.
pub proof fn law_window_shows_the_list<P>(
    rows: Seq<PickerRow>,
    entries: Seq<FilePickerEntry<P>>,
    selected: usize,
    visible: usize,
)
    requires
        is_window(rows, entries, selected, visible),
        selected < entries.len() <= usize::MAX,
    ensures
        ({
            let start = if selected + 1 <= visible {
                0
            } else {
                selected + 1 - visible
            };
            &&& rows.len() <= visible
            &&& start + rows.len() <= entries.len()
            &&& rows.len() == visible || start + rows.len() == entries.len()
            &&& forall|k: int|
                0 <= k < rows.len() ==> {
                    &&& (#[trigger] rows[k]).selected <==> start + k == selected
                    &&& start + k == selected ==> rows[k].text@ == "> "@ + entries[start + k].name@
                    &&& start + k != selected ==> rows[k].text@ == "  "@ + entries[start + k].name@
                }
        }),
{
}

/// To choose the entry that leads to the parent is to go to the parent: both
/// leave the same picker, which asks for the same directory, and whatever
/// reading that comes to, both show the same list or report the same error.
/// Clones of paths are taken to be equal to what they were made from.
pub proof fn law_choosing_parent_is_going_there<P: Clone>(
    picker: FilePicker<P>,
    parent: P,
    siblings: Seq<DirectoryChild<P>>,
    enter: KeyEvent,
    entered: FilePicker<P>,
    enter_action: PickerAction<P>,
    back: KeyEvent,
    gone: FilePicker<P>,
    back_action: PickerAction<P>,
    grandparent: Option<P>,
    outcome: Result<Vec<DirectoryChild<P>>, String>,
    entered_after: FilePicker<P>,
    entered_result: Result<(), String>,
    gone_after: FilePicker<P>,
    gone_result: Result<(), String>,
)
    requires
        forall|path: P, clone: P| #[trigger] cloned(path, clone) ==> clone == path,
        crate::listing::is_listing(picker.shown(), Some(parent), siblings),
        picker.selected == 0,
        command_of(enter) is Enter,
        picker_step(picker, enter, Some(parent), entered, enter_action),
        command_of(back) is Parent,
        picker_step(picker, back, Some(parent), gone, back_action),
        reload_step(entered, grandparent, outcome, entered_after, entered_result),
        reload_step(gone, grandparent, outcome, gone_after, gone_result),
    ensures
        enter_action is Read,
        back_action is Read,
        entered == gone,
        gone.cwd == parent,
        entered_result == gone_result,
        entered_after.cwd == gone_after.cwd,
        entered_after.shown() == gone_after.shown(),
        entered_after.selected == gone_after.selected,
{
    assert(picker.shown()[0] == picker.entries@[0]@);
    match outcome {
        Ok(children) => {
            crate::listing::law_listing_is_determined(
                entered_after.shown(),
                gone_after.shown(),
                grandparent,
                children@,
            );
            assert(entered_after.shown().len() == entered_after.entries@.len());
            assert(gone_after.shown().len() == gone_after.entries@.len());
        },
        Err(_) => {},
    }
}

/// No key press takes the cursor off the list.
pub proof fn law_picker_keeps_cursor_on_list<P: Clone>(
    before: FilePicker<P>,
    key: KeyEvent,
    parent: Option<P>,
    after: FilePicker<P>,
    action: PickerAction<P>,
)
    requires
        before.well_formed(),
        picker_step(before, key, parent, after, action),
    ensures
        after.well_formed(),
{
}

} // verus!
