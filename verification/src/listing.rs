//! Directory listings: what a directory shows, and in which order.

use crate::text::{is_before, join2, join3, lowercase_text};
use std::collections::VecDeque;
use vstd::prelude::*;

verus! {

/// An entry of the file picker.
pub struct FilePickerEntry<P> {
    pub name: String,
    pub path: P,
    pub is_dir: bool,
}

/// What a file picker entry stands for.
pub struct EntryView<P> {
    pub name: Seq<char>,
    pub path: P,
    pub is_dir: bool,
}

impl<P> View for FilePickerEntry<P> {
    type V = EntryView<P>;

    open spec fn view(&self) -> EntryView<P> {
        EntryView { name: self.name@, path: self.path, is_dir: self.is_dir }
    }
}

/// What a list of entries stands for.
pub open spec fn entry_views<P>(entries: Seq<FilePickerEntry<P>>) -> Seq<EntryView<P>> {
    entries.map_values(|entry: FilePickerEntry<P>| entry@)
}

/// What decides where an entry stands in a listing.
pub struct SortKey {
    pub is_dir: bool,
    pub lower: Seq<char>,
    pub name: Seq<char>,
}

/// Directories come before files; within each, names are ordered without
/// regard to case, and names that differ in case alone by code point.
pub open spec fn key_before(left: SortKey, right: SortKey) -> bool {
    if left.is_dir != right.is_dir {
        left.is_dir
    } else if left.lower != right.lower {
        crate::text::text_before(left.lower, right.lower)
    } else {
        crate::text::text_before(left.name, right.name)
    }
}

/// An entry together with the lower-case form of its name.
pub struct KeyedEntry<P> {
    pub lower: String,
    pub entry: FilePickerEntry<P>,
}

/// What a keyed entry stands for.
pub struct KeyedView<P> {
    pub lower: Seq<char>,
    pub entry: EntryView<P>,
}

impl<P> KeyedView<P> {
    /// The entry's sort key.
    pub open spec fn key(self) -> SortKey {
        SortKey { is_dir: self.entry.is_dir, lower: self.lower, name: self.entry.name }
    }
}

impl<P> View for KeyedEntry<P> {
    type V = KeyedView<P>;

    open spec fn view(&self) -> KeyedView<P> {
        KeyedView { lower: self.lower@, entry: self.entry@ }
    }
}

/// What a list of keyed entries stands for.
pub open spec fn keyed_views<P>(items: Seq<KeyedEntry<P>>) -> Seq<KeyedView<P>> {
    items.map_values(|item: KeyedEntry<P>| item@)
}

/// No item comes before one that precedes it in the list.
pub open spec fn in_order<P>(items: Seq<KeyedView<P>>) -> bool {
    forall|i: int, j: int|
        0 <= i < j < items.len() ==> !key_before(
            #[trigger] items[j].key(),
            #[trigger] items[i].key(),
        )
}

/// The items with a given key, in the order they have in the list.
pub open spec fn with_key<P>(items: Seq<KeyedView<P>>, key: SortKey) -> Seq<KeyedView<P>> {
    items.filter(|item: KeyedView<P>| item.key() == key)
}

/// One list holds the items of the other in order, and leaves items with
/// equal keys in the order they had.
pub open spec fn is_stable_sort<P>(sorted: Seq<KeyedView<P>>, items: Seq<KeyedView<P>>) -> bool {
    &&& in_order(sorted)
    &&& forall|key: SortKey| #[trigger] with_key(sorted, key) == with_key(items, key)
}

// ---------------------------------------------------------------------------
// The order of keys
// ---------------------------------------------------------------------------

/// The order of keys is a strict total order.
pub proof fn law_key_order_is_strict(a: SortKey, b: SortKey)
    ensures
        !key_before(a, a),
        key_before(a, b) ==> !key_before(b, a),
        key_before(a, b) || key_before(b, a) || a == b,
{
    crate::text::law_text_order_is_strict(a.lower, b.lower);
    crate::text::law_text_order_is_strict(a.name, b.name);
    crate::text::law_text_order_is_strict(a.name, a.name);
    crate::text::law_text_order_is_strict(b.lower, a.lower);
}

/// The order of keys is transitive, and so is its converse's negation.
pub proof fn law_key_order_is_transitive(a: SortKey, b: SortKey, c: SortKey)
    ensures
        key_before(a, b) && key_before(b, c) ==> key_before(a, c),
        !key_before(b, a) && !key_before(c, b) ==> !key_before(c, a),
{
    lemma_key_order_is_transitive(a, b, c);
    lemma_key_order_is_transitive(c, a, b);
    lemma_key_order_is_transitive(b, c, a);
    law_key_order_is_strict(a, b);
    law_key_order_is_strict(b, c);
    law_key_order_is_strict(a, c);
}

proof fn lemma_key_order_is_transitive(a: SortKey, b: SortKey, c: SortKey)
    ensures
        key_before(a, b) && key_before(b, c) ==> key_before(a, c),
{
    if key_before(a, b) && key_before(b, c) && a.is_dir == b.is_dir && b.is_dir == c.is_dir {
        if a.lower != b.lower && b.lower != c.lower {
            crate::text::law_text_order_is_transitive(a.lower, b.lower, c.lower);
            crate::text::law_text_order_is_strict(a.lower, b.lower);
        } else if a.lower == b.lower && b.lower == c.lower {
            crate::text::law_text_order_is_transitive(a.name, b.name, c.name);
        }
    }
}

/// Whether one keyed entry comes strictly before another.
pub fn comes_before<P>(left: &KeyedEntry<P>, right: &KeyedEntry<P>) -> (result: bool)
    ensures
        result == key_before(left@.key(), right@.key()),
{
    proof {
        crate::text::law_text_order_is_strict(left.lower@, right.lower@);
    }
    if left.entry.is_dir != right.entry.is_dir {
        left.entry.is_dir
    } else if is_before(left.lower.as_str(), right.lower.as_str()) {
        true
    } else if is_before(right.lower.as_str(), left.lower.as_str()) {
        false
    } else {
        is_before(left.entry.name.as_str(), right.entry.name.as_str())
    }
}

// ---------------------------------------------------------------------------
// Sorting
// ---------------------------------------------------------------------------

proof fn lemma_with_key_add<P>(first: Seq<KeyedView<P>>, second: Seq<KeyedView<P>>, key: SortKey)
    ensures
        with_key(first + second, key) == with_key(first, key) + with_key(second, key),
{
    Seq::filter_distributes_over_add(first, second, |item: KeyedView<P>| item.key() == key);
}

proof fn lemma_with_key_one<P>(item: KeyedView<P>, key: SortKey)
    ensures
        with_key(seq![item], key) == (if item.key() == key {
            seq![item]
        } else {
            Seq::empty()
        }),
{
    let pred = |item: KeyedView<P>| item.key() == key;
    assert(seq![item].drop_last() == Seq::<KeyedView<P>>::empty());
    reveal_with_fuel(Seq::filter, 2);
    assert(seq![item].drop_last().filter(pred) == Seq::<KeyedView<P>>::empty());
}

/// Nothing in an ordered list has a key that its first item comes after.
proof fn lemma_with_key_none<P>(items: Seq<KeyedView<P>>, key: SortKey)
    requires
        in_order(items),
        items.len() > 0 ==> key_before(key, items[0].key()),
    ensures
        with_key(items, key) == Seq::<KeyedView<P>>::empty(),
{
    let pred = |item: KeyedView<P>| item.key() == key;
    assert forall|i: int| 0 <= i < items.len() implies !pred(#[trigger] items[i]) by {
        law_key_order_is_strict(key, items[0].key());
        if i > 0 {
            assert(!key_before(items[i].key(), items[0].key()));
        }
    }
    items.lemma_all_neg_filter_empty(pred);
}

/// How far two ordered lists have been merged: what has been moved is in
/// order, comes no later than what is left, and no items with equal keys have
/// passed one another.
spec fn merging<P>(
    merged: Seq<KeyedView<P>>,
    left: Seq<KeyedView<P>>,
    right: Seq<KeyedView<P>>,
    items: Seq<KeyedView<P>>,
) -> bool {
    &&& in_order(merged + left)
    &&& in_order(merged + right)
    &&& forall|key: SortKey| #[trigger]
        with_key(merged, key) + with_key(left, key) + with_key(right, key) == with_key(items, key)
}

proof fn lemma_merge_left<P>(
    merged: Seq<KeyedView<P>>,
    left: Seq<KeyedView<P>>,
    right: Seq<KeyedView<P>>,
    items: Seq<KeyedView<P>>,
)
    requires
        merging(merged, left, right, items),
        left.len() > 0,
        right.len() > 0 ==> !key_before(right[0].key(), left[0].key()),
    ensures
        merging(merged.push(left[0]), left.drop_first(), right, items),
{
    let first = left[0];
    assert(merged.push(first) + left.drop_first() == merged + left);
    let both = merged + right;
    let moved = merged.push(first) + right;
    assert forall|i: int, j: int| 0 <= i < j < moved.len() implies !key_before(
        #[trigger] moved[j].key(),
        #[trigger] moved[i].key(),
    ) by {
        let n = merged.len();
        if j < n {
            assert(both[i] == moved[i] && both[j] == moved[j]);
        } else if j == n {
            assert((merged + left)[i] == moved[i] && (merged + left)[j] == moved[j]);
        } else if i < n {
            assert(both[i] == moved[i] && both[j - 1] == moved[j]);
        } else if i == n {
            assert(both[n as int] == right[0] && both[j - 1] == moved[j]);
            if j - 1 > n {
                assert(!key_before(both[j - 1].key(), both[n as int].key()));
            } else {
                law_key_order_is_strict(right[0].key(), right[0].key());
            }
            law_key_order_is_transitive(first.key(), right[0].key(), moved[j].key());
        } else {
            assert(both[i - 1] == moved[i] && both[j - 1] == moved[j]);
        }
    }
    assert forall|key: SortKey| #[trigger]
        with_key(merged.push(first), key) + with_key(left.drop_first(), key) + with_key(right, key)
            == with_key(items, key) by {
        assert(with_key(merged, key) + with_key(left, key) + with_key(right, key) == with_key(
            items,
            key,
        ));
        assert(merged.push(first) == merged + seq![first]);
        assert(left == seq![first] + left.drop_first());
        lemma_with_key_add(merged, seq![first], key);
        lemma_with_key_add(seq![first], left.drop_first(), key);
    }
}

proof fn lemma_merge_right<P>(
    merged: Seq<KeyedView<P>>,
    left: Seq<KeyedView<P>>,
    right: Seq<KeyedView<P>>,
    items: Seq<KeyedView<P>>,
)
    requires
        merging(merged, left, right, items),
        right.len() > 0,
        left.len() > 0 ==> key_before(right[0].key(), left[0].key()),
    ensures
        merging(merged.push(right[0]), left, right.drop_first(), items),
{
    let first = right[0];
    assert(merged.push(first) + right.drop_first() == merged + right);
    let both = merged + left;
    let moved = merged.push(first) + left;
    assert(in_order(left)) by {
        assert forall|i: int, j: int| 0 <= i < j < left.len() implies !key_before(
            #[trigger] left[j].key(),
            #[trigger] left[i].key(),
        ) by {
            assert(both[merged.len() + i] == left[i] && both[merged.len() + j] == left[j]);
        }
    }
    assert forall|i: int, j: int| 0 <= i < j < moved.len() implies !key_before(
        #[trigger] moved[j].key(),
        #[trigger] moved[i].key(),
    ) by {
        let n = merged.len();
        if j < n {
            assert(both[i] == moved[i] && both[j] == moved[j]);
        } else if j == n {
            assert((merged + right)[i] == moved[i] && (merged + right)[j] == moved[j]);
        } else if i < n {
            assert(both[i] == moved[i] && both[j - 1] == moved[j]);
        } else if i == n {
            assert(moved[j] == left[j - 1 - n]);
            law_key_order_is_strict(first.key(), left[0].key());
            law_key_order_is_strict(left[0].key(), left[0].key());
            law_key_order_is_transitive(first.key(), left[0].key(), moved[j].key());
        } else {
            assert(both[i - 1] == moved[i] && both[j - 1] == moved[j]);
        }
    }
    assert forall|key: SortKey| #[trigger]
        with_key(merged.push(first), key) + with_key(left, key) + with_key(right.drop_first(), key)
            == with_key(items, key) by {
        assert(with_key(merged, key) + with_key(left, key) + with_key(right, key) == with_key(
            items,
            key,
        ));
        assert(merged.push(first) == merged + seq![first]);
        assert(right == seq![first] + right.drop_first());
        lemma_with_key_add(merged, seq![first], key);
        lemma_with_key_add(seq![first], right.drop_first(), key);
        lemma_with_key_one(first, key);
        if first.key() == key {
            lemma_with_key_none(left, key);
        }
        assert(with_key(merged.push(first), key) + with_key(left, key) + with_key(
            right.drop_first(),
            key,
        ) == with_key(items, key));
    }
}

/// Merges two ordered lists; of items with equal keys, those of the left list
/// come first.
fn merge<P>(left: VecDeque<KeyedEntry<P>>, right: VecDeque<KeyedEntry<P>>) -> (merged: VecDeque<
    KeyedEntry<P>,
>)
    requires
        in_order(keyed_views(left@)),
        in_order(keyed_views(right@)),
    ensures
        is_stable_sort(keyed_views(merged@), keyed_views(left@ + right@)),
{
    let ghost items = keyed_views(left@ + right@);
    let mut left = left;
    let mut right = right;
    let mut merged: VecDeque<KeyedEntry<P>> = VecDeque::new();
    proof {
        let empty = Seq::<KeyedView<P>>::empty();
        assert(keyed_views(merged@) == empty);
        assert(empty + keyed_views(left@) == keyed_views(left@));
        assert(empty + keyed_views(right@) == keyed_views(right@));
        assert(items == keyed_views(left@) + keyed_views(right@));
        assert forall|key: SortKey| #[trigger]
            with_key(empty, key) + with_key(keyed_views(left@), key) + with_key(
                keyed_views(right@),
                key,
            ) == with_key(items, key) by {
            lemma_with_key_add(keyed_views(left@), keyed_views(right@), key);
            lemma_with_key_none(empty, key);
        }
    }
    while left.len() > 0 || right.len() > 0
        invariant
            merging(keyed_views(merged@), keyed_views(left@), keyed_views(right@), items),
        decreases left@.len() + right@.len(),
    {
        let ghost merged_before = keyed_views(merged@);
        let ghost left_before = keyed_views(left@);
        let ghost right_before = keyed_views(right@);
        let from_right = if left.len() == 0 {
            true
        } else if right.len() == 0 {
            false
        } else {
            comes_before(&right[0], &left[0])
        };
        if from_right {
            proof {
                lemma_merge_right(merged_before, left_before, right_before, items);
            }
            if let Some(item) = right.pop_front() {
                merged.push_back(item);
                assert(keyed_views(right@) == right_before.drop_first());
                assert(keyed_views(merged@) == merged_before.push(right_before[0]));
            }
        } else {
            proof {
                lemma_merge_left(merged_before, left_before, right_before, items);
            }
            if let Some(item) = left.pop_front() {
                merged.push_back(item);
                assert(keyed_views(left@) == left_before.drop_first());
                assert(keyed_views(merged@) == merged_before.push(left_before[0]));
            }
        }
    }
    proof {
        let empty = Seq::<KeyedView<P>>::empty();
        let result = keyed_views(merged@);
        assert(keyed_views(left@) == empty && keyed_views(right@) == empty);
        assert(result + empty == result);
        assert forall|key: SortKey| #[trigger] with_key(result, key) == with_key(items, key) by {
            lemma_with_key_none(empty, key);
            assert(with_key(result, key) + with_key(empty, key) + with_key(empty, key) == with_key(
                items,
                key,
            ));
            assert(with_key(result, key) + empty + empty == with_key(result, key));
        }
    }
    merged
}

/// Puts keyed entries in order, and leaves those with equal keys in the order
/// they had.
pub fn sort_keyed<P>(items: VecDeque<KeyedEntry<P>>) -> (sorted: VecDeque<KeyedEntry<P>>)
    ensures
        is_stable_sort(keyed_views(sorted@), keyed_views(items@)),
    decreases items@.len(),
{
    if items.len() <= 1 {
        return items;
    }
    let ghost all = items@;
    let mut left = items;
    let middle: usize = left.len() / 2;
    let right = left.split_off(middle);
    assert(left@ + right@ == all);
    let ghost left_views = keyed_views(left@);
    let ghost right_views = keyed_views(right@);
    let left = sort_keyed(left);
    let right = sort_keyed(right);
    let sorted = merge(left, right);
    proof {
        assert(keyed_views(all) == left_views + right_views);
        assert(keyed_views(left@ + right@) == keyed_views(left@) + keyed_views(right@));
        assert forall|key: SortKey| #[trigger]
            with_key(keyed_views(sorted@), key) == with_key(keyed_views(all), key) by {
            lemma_with_key_add(left_views, right_views, key);
            lemma_with_key_add(keyed_views(left@), keyed_views(right@), key);
        }
    }
    sorted
}

// ---------------------------------------------------------------------------
// Listings
// ---------------------------------------------------------------------------

/// What reading a directory found, under the name the file system gave.
pub struct DirectoryChild<P> {
    pub file_name: String,
    pub path: P,
    pub is_dir: bool,
}

/// The entry that shows a child: a directory's name ends in a slash.
pub open spec fn labelled<P>(child: DirectoryChild<P>) -> EntryView<P> {
    EntryView {
        name: if child.is_dir {
            child.file_name@ + "/"@
        } else {
            child.file_name@
        },
        path: child.path,
        is_dir: child.is_dir,
    }
}

/// The entries that show the children, in the order the children were found.
pub open spec fn all_labelled<P>(children: Seq<DirectoryChild<P>>) -> Seq<EntryView<P>> {
    children.map_values(|child: DirectoryChild<P>| labelled(child))
}

/// An entry with the key it is sorted by.
pub open spec fn keyed<P>(entry: EntryView<P>) -> KeyedView<P> {
    KeyedView { lower: crate::text::lowercase(entry.name), entry }
}

/// Entries with the keys they are sorted by.
pub open spec fn all_keyed<P>(entries: Seq<EntryView<P>>) -> Seq<KeyedView<P>> {
    entries.map_values(|entry: EntryView<P>| keyed(entry))
}

/// The entry that leads to the parent directory.
pub open spec fn parent_entry<P>(parent: P) -> EntryView<P> {
    EntryView { name: "../"@, path: parent, is_dir: true }
}

/// What a directory shows: first the way to its parent, if it has one, and
/// then its children in order.
pub open spec fn is_listing<P>(
    entries: Seq<EntryView<P>>,
    parent: Option<P>,
    children: Seq<DirectoryChild<P>>,
) -> bool {
    match parent {
        Some(path) => {
            &&& entries.len() > 0
            &&& entries[0] == parent_entry(path)
            &&& is_stable_sort(all_keyed(entries.drop_first()), all_keyed(all_labelled(children)))
        },
        None => is_stable_sort(all_keyed(entries), all_keyed(all_labelled(children))),
    }
}

/// Keyed entries without their keys.
spec fn bare<P>(items: Seq<KeyedView<P>>) -> Seq<EntryView<P>> {
    items.map_values(|item: KeyedView<P>| item.entry)
}

/// What a stable sort holds, the list it sorted holds.
proof fn lemma_sorted_item_is_found<P>(
    sorted: Seq<KeyedView<P>>,
    items: Seq<KeyedView<P>>,
    i: int,
)
    requires
        is_stable_sort(sorted, items),
        0 <= i < sorted.len(),
    ensures
        items.contains(sorted[i]),
{
    let key = sorted[i].key();
    let pred = |item: KeyedView<P>| item.key() == key;
    sorted.lemma_filter_contains(pred, i);
    assert(with_key(sorted, key) == with_key(items, key));
    items.lemma_filter_contains_rev(pred, sorted[i]);
}

/// Moves entries out of their keyed form to the end of a list.
fn append_entries<P>(entries: &mut Vec<FilePickerEntry<P>>, items: VecDeque<KeyedEntry<P>>)
    ensures
        entry_views(final(entries)@) == entry_views(old(entries)@) + bare(keyed_views(items@)),
{
    let ghost all = items@;
    let ghost head = entry_views(entries@);
    let mut items = items;
    let count: usize = items.len();
    for i in 0..count
        invariant
            count == all.len(),
            items@ == all.skip(i as int),
            entry_views(entries@) == head + bare(keyed_views(all.take(i as int))),
    {
        let ghost before = entries@;
        if let Some(item) = items.pop_front() {
            entries.push(item.entry);
            proof {
                assert(item == all[i as int]);
                assert(entry_views(entries@) == entry_views(before).push(item@.entry));
                assert(bare(keyed_views(all.take(i + 1))) == bare(
                    keyed_views(all.take(i as int)),
                ).push(item@.entry));
            }
        }
    }
    assert(all.take(all.len() as int) == all);
}

/// Lists a directory from what reading it found.
pub fn directory_entries<P>(
    parent: Option<P>,
    children: Vec<DirectoryChild<P>>,
) -> (entries: Vec<FilePickerEntry<P>>)
    ensures
        is_listing(entry_views(entries@), parent, children@),
{
    let ghost found = children@;
    let mut items: VecDeque<KeyedEntry<P>> = VecDeque::new();
    for child in iter: children
        invariant
            iter.seq() == found,
            keyed_views(items@) == all_keyed(all_labelled(found.take(iter.index()))),
    {
        let mut name = child.file_name;
        if child.is_dir {
            name.append("/");
        }
        let lower = lowercase_text(name.as_str());
        let ghost before = items@;
        items.push_back(
            KeyedEntry {
                lower,
                entry: FilePickerEntry { name, path: child.path, is_dir: child.is_dir },
            },
        );
        proof {
            let index = iter.index();
            assert(found.take(index + 1) == found.take(index).push(found[index]));
            assert(keyed_views(items@) == keyed_views(before).push(keyed(labelled(found[index]))));
            assert(all_keyed(all_labelled(found.take(index + 1))) == all_keyed(
                all_labelled(found.take(index)),
            ).push(keyed(labelled(found[index]))));
        }
    }
    assert(found.take(found.len() as int) == found);
    let ghost unsorted = keyed_views(items@);
    let sorted = sort_keyed(items);
    let ghost order = keyed_views(sorted@);
    let mut entries: Vec<FilePickerEntry<P>> = Vec::new();
    match parent {
        Some(path) => {
            entries.push(FilePickerEntry { name: "../".to_owned(), path, is_dir: true });
        },
        None => {},
    }
    let ghost head = entry_views(entries@);
    append_entries(&mut entries, sorted);
    proof {
        let shown = entry_views(entries@);
        let tail = bare(order);
        assert(shown == head + tail);
        assert(all_keyed(tail) == order) by {
            assert forall|i: int| 0 <= i < order.len() implies keyed(order[i].entry)
                == order[i] by {
                lemma_sorted_item_is_found(order, unsorted, i);
            }
        }
        if parent is Some {
            assert(shown.drop_first() == tail);
        } else {
            assert(shown == tail);
        }
    }
    entries
}

/// Why a directory could not be read.
pub enum DirectoryFailure {
    /// It is not known which directory is the current one.
    Current(String),
    /// The directory with this path could not be opened.
    Open { path: String, error: String },
    /// The directory with this path could not be read to its end.
    Read { path: String, error: String },
}

/// What the user is told of a directory that could not be read.
pub fn directory_error(failure: DirectoryFailure) -> (text: String)
    ensures
        text@ == (match failure {
            DirectoryFailure::Current(error) => "read current directory: "@ + error@,
            DirectoryFailure::Open { path, error } => "open directory "@ + path@ + ": "@ + error@,
            DirectoryFailure::Read { path, error } => "read directory "@ + path@ + ": "@ + error@,
        }),
{
    match failure {
        DirectoryFailure::Current(error) => join2("read current directory: ", error.as_str()),
        DirectoryFailure::Open { path, error } => {
            let mut text = join3("open directory ", path.as_str(), ": ");
            text.append(error.as_str());
            text
        },
        DirectoryFailure::Read { path, error } => {
            let mut text = join3("read directory ", path.as_str(), ": ");
            text.append(error.as_str());
            text
        },
    }
}

// ---------------------------------------------------------------------------
// Laws
// ---------------------------------------------------------------------------

/// The first item with a key leads the items with that key.
proof fn lemma_with_key_first<P>(items: Seq<KeyedView<P>>, key: SortKey)
    requires
        items.len() > 0,
    ensures
        with_key(items, key) == (if items[0].key() == key {
            seq![items[0]] + with_key(items.drop_first(), key)
        } else {
            with_key(items.drop_first(), key)
        }),
{
    assert(items == seq![items[0]] + items.drop_first());
    lemma_with_key_add(seq![items[0]], items.drop_first(), key);
    lemma_with_key_one(items[0], key);
    assert(Seq::<KeyedView<P>>::empty() + with_key(items.drop_first(), key) == with_key(
        items.drop_first(),
        key,
    ));
}

/// An ordered list begins with a key that is nowhere preceded.
proof fn lemma_first_key_is_least<P>(items: Seq<KeyedView<P>>, key: SortKey)
    requires
        in_order(items),
        with_key(items, key).len() > 0,
    ensures
        items.len() > 0,
        !key_before(key, items[0].key()),
{
    let pred = |item: KeyedView<P>| item.key() == key;
    let item = with_key(items, key)[0];
    assert(items.filter(pred).contains(item));
    items.lemma_filter_contains_rev(pred, item);
    items.lemma_filter_pred(pred, 0);
    let i = choose|i: int| 0 <= i < items.len() && items[i] == item;
    law_key_order_is_strict(key, key);
    if i > 0 {
        assert(!key_before(items[i].key(), items[0].key()));
    }
}

/// Sorting has one result: two ordered lists with the same items, and items
/// with equal keys in the same order, are the same list.
pub proof fn law_stable_sort_is_unique<P>(
    first: Seq<KeyedView<P>>,
    second: Seq<KeyedView<P>>,
    items: Seq<KeyedView<P>>,
)
    requires
        is_stable_sort(first, items),
        is_stable_sort(second, items),
    ensures
        first == second,
{
    assert forall|key: SortKey| #[trigger] with_key(first, key) == with_key(second, key) by {
        assert(with_key(first, key) == with_key(items, key));
        assert(with_key(second, key) == with_key(items, key));
    }
    lemma_same_keys_same_list(first, second);
}

proof fn lemma_same_keys_same_list<P>(first: Seq<KeyedView<P>>, second: Seq<KeyedView<P>>)
    requires
        in_order(first),
        in_order(second),
        forall|key: SortKey| #[trigger] with_key(first, key) == with_key(second, key),
    ensures
        first == second,
    decreases first.len(),
{
    if first.len() == 0 {
        if second.len() > 0 {
            lemma_with_key_first(second, second[0].key());
            assert(with_key(first, second[0].key()) == with_key(second, second[0].key()));
            lemma_with_key_none(first, second[0].key());
        }
    } else {
        let key = first[0].key();
        lemma_with_key_first(first, key);
        assert(with_key(first, key) == with_key(second, key));
        lemma_first_key_is_least(second, key);
        let other = second[0].key();
        lemma_with_key_first(second, other);
        assert(with_key(first, other) == with_key(second, other));
        lemma_first_key_is_least(first, other);
        law_key_order_is_strict(key, other);
        assert(key == other);
        assert(first[0] == with_key(first, key)[0]);
        assert(second[0] == with_key(second, key)[0]);
        let first_rest = first.drop_first();
        let second_rest = second.drop_first();
        assert(in_order(first_rest)) by {
            assert forall|i: int, j: int| 0 <= i < j < first_rest.len() implies !key_before(
                #[trigger] first_rest[j].key(),
                #[trigger] first_rest[i].key(),
            ) by {
                assert(!key_before(first[j + 1].key(), first[i + 1].key()));
            }
        }
        assert(in_order(second_rest)) by {
            assert forall|i: int, j: int| 0 <= i < j < second_rest.len() implies !key_before(
                #[trigger] second_rest[j].key(),
                #[trigger] second_rest[i].key(),
            ) by {
                assert(!key_before(second[j + 1].key(), second[i + 1].key()));
            }
        }
        assert forall|k: SortKey| #[trigger] with_key(first_rest, k) == with_key(
            second_rest,
            k,
        ) by {
            assert(with_key(first, k) == with_key(second, k));
            lemma_with_key_first(first, k);
            lemma_with_key_first(second, k);
            if k == key {
                assert(with_key(first, k).drop_first() == with_key(first_rest, k));
                assert(with_key(second, k).drop_first() == with_key(second_rest, k));
            }
        }
        lemma_same_keys_same_list(first_rest, second_rest);
        assert(first == seq![first[0]] + first_rest);
        assert(second == seq![second[0]] + second_rest);
    }
}

/// A directory is listed in one way only.
pub proof fn law_listing_is_determined<P>(
    first: Seq<EntryView<P>>,
    second: Seq<EntryView<P>>,
    parent: Option<P>,
    children: Seq<DirectoryChild<P>>,
)
    requires
        is_listing(first, parent, children),
        is_listing(second, parent, children),
    ensures
        first == second,
{
    let items = all_keyed(all_labelled(children));
    let (first_rest, second_rest) = if parent is Some {
        (first.drop_first(), second.drop_first())
    } else {
        (first, second)
    };
    law_stable_sort_is_unique(all_keyed(first_rest), all_keyed(second_rest), items);
    assert(first_rest == bare(all_keyed(first_rest)));
    assert(second_rest == bare(all_keyed(second_rest)));
    if parent is Some {
        assert(first == seq![first[0]] + first_rest);
        assert(second == seq![second[0]] + second_rest);
    }
}

/// The way to the parent comes first, and all directories before all files.
pub proof fn law_parent_and_directories_come_first<P>(
    entries: Seq<EntryView<P>>,
    parent: Option<P>,
    children: Seq<DirectoryChild<P>>,
    i: int,
    j: int,
)
    requires
        is_listing(entries, parent, children),
        0 <= i < j < entries.len(),
    ensures
        parent matches Some(path) ==> entries[0].name == "../"@ && entries[0].path == path
            && entries[0].is_dir,
        entries[j].is_dir ==> entries[i].is_dir,
{
    let (rest, offset) = if parent is Some {
        (entries.drop_first(), 1int)
    } else {
        (entries, 0int)
    };
    if i >= offset {
        let items = all_keyed(rest);
        assert(items[i - offset].entry == entries[i]);
        assert(items[j - offset].entry == entries[j]);
        assert(!key_before(items[j - offset].key(), items[i - offset].key()));
    }
}

/// Directories, and likewise files, come in alphabetical order without regard
/// to case: at the first character in which the lower-case forms of two names
/// differ, the one that comes first has the smaller, or has ended. Names whose
/// lower-case forms are the same are ordered in that way themselves.
pub proof fn law_names_are_in_alphabetical_order<P>(
    entries: Seq<EntryView<P>>,
    parent: Option<P>,
    children: Seq<DirectoryChild<P>>,
    i: int,
    j: int,
    k: int,
)
    requires
        is_listing(entries, parent, children),
        (if parent is Some {
            1int
        } else {
            0
        }) <= i < j < entries.len(),
        entries[i].is_dir == entries[j].is_dir,
        k >= 0,
    ensures
        ({
            let former = crate::text::lowercase(entries[i].name);
            let latter = crate::text::lowercase(entries[j].name);
            &&& k < former.len() && k <= latter.len() && former.take(k) == latter.take(k)
                ==> k < latter.len() && former[k] as int <= latter[k] as int
            &&& former == latter ==> {
                let (former, latter) = (entries[i].name, entries[j].name);
                k < former.len() && k <= latter.len() && former.take(k) == latter.take(k)
                    ==> k < latter.len() && former[k] as int <= latter[k] as int
            }
        }),
{
    let (rest, offset) = if parent is Some {
        (entries.drop_first(), 1int)
    } else {
        (entries, 0int)
    };
    let items = all_keyed(rest);
    assert(items[i - offset].entry == entries[i]);
    assert(items[j - offset].entry == entries[j]);
    assert(!key_before(items[j - offset].key(), items[i - offset].key()));
    let former = crate::text::lowercase(entries[i].name);
    let latter = crate::text::lowercase(entries[j].name);
    if k < former.len() && k <= latter.len() && former.take(k) == latter.take(k) {
        crate::text::law_first_difference_decides(latter, former, k);
    }
    if former == latter {
        let (former, latter) = (entries[i].name, entries[j].name);
        if k < former.len() && k <= latter.len() && former.take(k) == latter.take(k) {
            crate::text::law_first_difference_decides(latter, former, k);
        }
    }
}

/// Entries with one name, of one kind, are listed in the order in which they
/// were found.
pub proof fn law_equal_names_keep_their_order<P>(
    entries: Seq<EntryView<P>>,
    parent: Option<P>,
    children: Seq<DirectoryChild<P>>,
    name: Seq<char>,
    is_dir: bool,
)
    requires
        is_listing(entries, parent, children),
    ensures
        ({
            let listed = if parent is Some {
                entries.drop_first()
            } else {
                entries
            };
            let alike = |entry: EntryView<P>| entry.name == name && entry.is_dir == is_dir;
            listed.filter(alike) == all_labelled(children).filter(alike)
        }),
{
    let listed = if parent is Some {
        entries.drop_first()
    } else {
        entries
    };
    let found = all_labelled(children);
    let alike = |entry: EntryView<P>| entry.name == name && entry.is_dir == is_dir;
    let key = SortKey { is_dir, lower: crate::text::lowercase(name), name };
    lemma_with_key_of_keyed(listed, key);
    lemma_with_key_of_keyed(found, key);
    assert(with_key(all_keyed(listed), key) == with_key(all_keyed(found), key));
    assert(listed.filter(alike) == bare(all_keyed(listed.filter(alike))));
    assert(found.filter(alike) == bare(all_keyed(found.filter(alike))));
}

proof fn lemma_with_key_of_keyed<P>(entries: Seq<EntryView<P>>, key: SortKey)
    requires
        key.lower == crate::text::lowercase(key.name),
    ensures
        with_key(all_keyed(entries), key) == all_keyed(
            entries.filter(
                |entry: EntryView<P>| entry.name == key.name && entry.is_dir == key.is_dir,
            ),
        ),
    decreases entries.len(),
{
    let alike = |entry: EntryView<P>| entry.name == key.name && entry.is_dir == key.is_dir;
    reveal(Seq::filter);
    if entries.len() > 0 {
        let rest = entries.drop_last();
        lemma_with_key_of_keyed(rest, key);
        assert(all_keyed(entries).drop_last() == all_keyed(rest));
        assert(all_keyed(entries).last() == keyed(entries.last()));
        if alike(entries.last()) {
            assert(all_keyed(rest.filter(alike).push(entries.last())) == all_keyed(
                rest.filter(alike),
            ).push(keyed(entries.last())));
        }
    } else {
        assert(all_keyed(entries) == Seq::<KeyedView<P>>::empty());
        assert(all_keyed(entries.filter(alike)) == Seq::<KeyedView<P>>::empty());
    }
}

proof fn lemma_count_with_key<P>(items: Seq<KeyedView<P>>, item: KeyedView<P>)
    ensures
        items.to_multiset().count(item) == with_key(items, item.key()).to_multiset().count(item),
    decreases items.len(),
{
    broadcast use vstd::seq_lib::group_to_multiset_ensures;

    if items.len() > 0 {
        lemma_count_with_key(items.drop_first(), item);
        lemma_with_key_first(items, item.key());
        let rest = items.drop_first();
        let part = with_key(rest, item.key());
        vstd::seq_lib::lemma_multiset_commutative(seq![items[0]], rest);
        vstd::seq_lib::lemma_multiset_commutative(seq![items[0]], part);
        assert(items == seq![items[0]] + rest);
        assert(seq![items[0]] == Seq::<KeyedView<P>>::empty().push(items[0]));
    } else {
        lemma_with_key_none(items, item.key());
    }
}

proof fn lemma_count_keyed<P>(entries: Seq<EntryView<P>>, entry: EntryView<P>)
    ensures
        all_keyed(entries).to_multiset().count(keyed(entry)) == entries.to_multiset().count(entry),
    decreases entries.len(),
{
    broadcast use vstd::seq_lib::group_to_multiset_ensures;

    if entries.len() > 0 {
        let rest = entries.drop_last();
        lemma_count_keyed(rest, entry);
        assert(entries == rest.push(entries.last()));
        assert(all_keyed(entries) == all_keyed(rest).push(keyed(entries.last())));
    }
}

/// A listing shows every child that was found, each as often as it was found,
/// and nothing but the way to the parent besides: a directory under its name
/// and a slash, a file under its name, and both with their paths.
pub proof fn law_listing_shows_every_child<P>(
    entries: Seq<EntryView<P>>,
    parent: Option<P>,
    children: Seq<DirectoryChild<P>>,
)
    requires
        is_listing(entries, parent, children),
    ensures
        (if parent is Some {
            entries.drop_first()
        } else {
            entries
        }).to_multiset() == children.map_values(
            |child: DirectoryChild<P>|
                EntryView {
                    name: if child.is_dir {
                        child.file_name@.push('/')
                    } else {
                        child.file_name@
                    },
                    path: child.path,
                    is_dir: child.is_dir,
                },
        ).to_multiset(),
        entries.len() == children.len() + (if parent is Some {
            1int
        } else {
            0int
        }),
{
    broadcast use vstd::seq_lib::group_to_multiset_ensures;

    let rest = if parent is Some {
        entries.drop_first()
    } else {
        entries
    };
    let shown = all_labelled(children);
    assert forall|entry: EntryView<P>| #[trigger]
        rest.to_multiset().count(entry) == shown.to_multiset().count(entry) by {
        let item = keyed(entry);
        lemma_count_keyed(rest, entry);
        lemma_count_keyed(shown, entry);
        lemma_count_with_key(all_keyed(rest), item);
        lemma_count_with_key(all_keyed(shown), item);
        assert(with_key(all_keyed(rest), item.key()) == with_key(all_keyed(shown), item.key()));
    }
    assert(rest.to_multiset() == shown.to_multiset());
    reveal_strlit("/");
    assert forall|child: DirectoryChild<P>| child.file_name@ + "/"@
        == #[trigger] child.file_name@.push('/') by {
    }
    assert(shown == children.map_values(
        |child: DirectoryChild<P>|
            EntryView {
                name: if child.is_dir {
                    child.file_name@.push('/')
                } else {
                    child.file_name@
                },
                path: child.path,
                is_dir: child.is_dir,
            },
    ));
    assert(rest.to_multiset().len() == rest.len());
    assert(shown.to_multiset().len() == shown.len());
}

} // verus!
