//! The fuzzy-selection session: the mutable state between the matching
//! engine and the render loop.
//!
//! A [`FuzzyMatchModel`] owns the live query (a character sequence plus a
//! cursor in character units), the selection over the currently matched
//! rows, the most recent bounded snapshot pulled from the engine, and the
//! engine feed itself. Edits keep the engine's pattern in sync and tell it
//! whether the new query merely extends the old one, so the engine may
//! refine prior results instead of rescanning.

use crate::feed::Feed;
use crate::feed::engine_text;
use crate::feed::feed_contents;
use crate::feed::feed_pattern;
use crate::highlight::sort_dedup;
use crate::highlight::strictly_sorted;
use vstd::prelude::*;

verus! {

/// The session's copy of the engine's most recent results: the visible rows
/// (text plus highlight indices), the full matched count, and the total
/// candidate count.
pub struct Snapshot {
    pub matched_items: Vec<(String, Vec<u32>)>,
    pub matched_item_count: usize,
    pub total_item_count: usize,
}

/// Selection state over the currently matched rows: the selected position,
/// if any, and the last selected position, remembered so an unset selection
/// can be restored.
pub struct StatefulList {
    pub selected: Option<usize>,
    pub last_selected: Option<usize>,
}

/// Where the selection moves one step down the ranked list: one past the
/// current position, wrapping to the top when it would leave the matched
/// range; an unset selection is restored to the remembered position, or the
/// top.
pub open spec fn next_selection(
    selected: Option<usize>,
    last_selected: Option<usize>,
    matched_count: usize,
) -> Option<usize> {
    match selected {
        Some(i) => if i + 1 >= matched_count {
            Some(0usize)
        } else {
            Some((i + 1) as usize)
        },
        None => match last_selected {
            Some(l) => Some(l),
            None => Some(0usize),
        },
    }
}

/// Where the selection moves one step up the ranked list: one before the
/// current position, wrapping from the top to the last matched position; an
/// unset selection is restored as in [`next_selection`].
pub open spec fn previous_selection(
    selected: Option<usize>,
    last_selected: Option<usize>,
    matched_count: usize,
) -> Option<usize> {
    match selected {
        Some(i) => if i == 0 {
            if matched_count == 0 {
                Some(0usize)
            } else {
                Some((matched_count - 1) as usize)
            }
        } else {
            Some((i - 1) as usize)
        },
        None => match last_selected {
            Some(l) => Some(l),
            None => Some(0usize),
        },
    }
}

/// What a selection becomes once a fresh snapshot reports `matched_count`
/// matched rows: unset when nothing matches, clamped to the last matched
/// position when the matched set shrank below it, and untouched otherwise.
pub open spec fn revalidated_selection(selected: Option<usize>, matched_count: usize) -> Option<
    usize,
> {
    if matched_count == 0 {
        None
    } else {
        match selected {
            Some(i) => if i < matched_count {
                Some(i)
            } else {
                Some((matched_count - 1) as usize)
            },
            None => None,
        }
    }
}

/// Law: stepping down from the last matched position wraps the selection to
/// the top of the list.
pub proof fn lemma_next_wraps(last_selected: Option<usize>, matched_count: usize)
    requires
        matched_count > 0,
    ensures
        next_selection(Some((matched_count - 1) as usize), last_selected, matched_count) == Some(
            0usize,
        ),
{
}

/// Law: stepping up from the top of the list wraps the selection to the
/// last matched position.
pub proof fn lemma_previous_wraps(last_selected: Option<usize>, matched_count: usize)
    requires
        matched_count > 0,
    ensures
        previous_selection(Some(0usize), last_selected, matched_count) == Some(
            (matched_count - 1) as usize,
        ),
{
}

/// Law: whatever the selection was before, after re-validation it is unset
/// or strictly below the matched count.
pub proof fn lemma_revalidated_in_range(selected: Option<usize>, matched_count: usize)
    ensures
        revalidated_selection(selected, matched_count) is Some ==> revalidated_selection(
            selected,
            matched_count,
        )->0 < matched_count,
{
}

/// A position clamped to stay at or before `len`.
pub open spec fn clamped(pos: int, len: int) -> int {
    if pos <= len {
        pos
    } else {
        len
    }
}

impl StatefulList {
    /// Moves one step down the ranked list, per [`next_selection`]; the
    /// remembered position is kept.
    pub fn next(&mut self, matched_count: usize)
        ensures
            final(self).selected == next_selection(
                old(self).selected,
                old(self).last_selected,
                matched_count,
            ),
            final(self).last_selected == old(self).last_selected,
    {
        let i: usize = match self.selected {
            Some(i) => {
                if matched_count == 0 || i >= matched_count - 1 {
                    0
                } else {
                    i + 1
                }
            },
            None => {
                match self.last_selected {
                    Some(l) => l,
                    None => 0,
                }
            },
        };
        self.selected = Some(i);
    }

    /// Moves one step up the ranked list, per [`previous_selection`]; the
    /// remembered position is kept.
    pub fn previous(&mut self, matched_count: usize)
        ensures
            final(self).selected == previous_selection(
                old(self).selected,
                old(self).last_selected,
                matched_count,
            ),
            final(self).last_selected == old(self).last_selected,
    {
        let i: usize = match self.selected {
            Some(i) => {
                if i == 0 {
                    if matched_count == 0 {
                        0
                    } else {
                        matched_count - 1
                    }
                } else {
                    i - 1
                }
            },
            None => {
                match self.last_selected {
                    Some(l) => l,
                    None => 0,
                }
            },
        };
        self.selected = Some(i);
    }
}

/// One key press, as the input loop reports it: the keys the session reacts
/// to, a typed character, or anything else.
#[derive(Clone, Copy, Debug, PartialEq, Eq, Structural)]
pub enum KeyPress {
    Enter,
    Up,
    Down,
    Esc,
    Backspace,
    Char(char),
    Other,
}

/// The session state of one interactive fuzzy-find run.
pub struct FuzzyMatchModel {
    /// Whether the interaction loop should keep running.
    pub running: bool,
    /// The committed selection, set at most once.
    pub result: Option<String>,
    /// The live query, one entry per character.
    pub input: Vec<char>,
    /// The query as it stood before the most recent edit.
    pub prev_input: Vec<char>,
    /// Selection over the currently matched rows.
    pub items: StatefulList,
    /// Cursor offset into `input`, in characters.
    pub cursor_position: usize,
    /// The most recent snapshot pulled from the engine.
    pub snapshot: Snapshot,
    /// The render surface's row count; snapshots are pulled at this size.
    pub height: u32,
    /// The matching engine.
    pub feed: Feed,
}

/// How a session changes when the character `c` is typed: `c` enters the
/// query at the cursor, the cursor moves past it, the previous query is
/// remembered, the selection returns to the top row and the engine's pattern
/// follows the new query; nothing else moves.
pub open spec fn char_entered(pre: FuzzyMatchModel, post: FuzzyMatchModel, c: char) -> bool {
    &&& post.input@ == pre.input@.insert(pre.cursor_position as int, c)
    &&& post.prev_input@ == pre.input@
    &&& post.cursor_position == pre.cursor_position + 1
    &&& post.items.selected == Some(0usize)
    &&& post.items.last_selected == pre.items.last_selected
    &&& post.running == pre.running
    &&& post.result == pre.result
    &&& post.height == pre.height
    &&& post.snapshot == pre.snapshot
    &&& feed_contents(post.feed) == feed_contents(pre.feed)
    &&& feed_pattern(post.feed) == post.input@
}

/// How a session changes when the character before the cursor is deleted:
/// with the cursor at the start there is nothing before it, and the query
/// and cursor stay exactly as they are; otherwise that character leaves the
/// query and the cursor moves back one. Either way the previous query is
/// remembered, the selection returns to the top row and the engine's pattern
/// follows the query; nothing else moves.
pub open spec fn char_deleted(pre: FuzzyMatchModel, post: FuzzyMatchModel) -> bool {
    &&& if pre.cursor_position == 0 {
        post.input@ == pre.input@ && post.cursor_position == 0
    } else {
        post.input@ == pre.input@.remove(pre.cursor_position - 1) && post.cursor_position
            == pre.cursor_position - 1
    }
    &&& post.prev_input@ == pre.input@
    &&& post.items.selected == Some(0usize)
    &&& post.items.last_selected == pre.items.last_selected
    &&& post.running == pre.running
    &&& post.result == pre.result
    &&& post.height == pre.height
    &&& post.snapshot == pre.snapshot
    &&& feed_contents(post.feed) == feed_contents(pre.feed)
    &&& feed_pattern(post.feed) == post.input@
}

/// How a session changes when the current selection is committed: a
/// selection on a visible row copies that row's text into the result, one
/// beyond the visible window clears the result, and no selection leaves it
/// untouched; nothing else moves.
pub open spec fn selection_committed(pre: FuzzyMatchModel, post: FuzzyMatchModel) -> bool {
    &&& post == (FuzzyMatchModel { result: post.result, ..pre })
    &&& post.result == (match pre.items.selected {
        Some(i) => if i < pre.snapshot.matched_items@.len() {
            Some(pre.snapshot.matched_items@[i as int].0)
        } else {
            None::<String>
        },
        None => pre.result,
    })
}

/// Copies a character vector.
fn copy_chars(v: &Vec<char>) -> (r: Vec<char>)
    ensures
        r@ == v@,
{
    let mut r: Vec<char> = Vec::new();
    let mut i: usize = 0;
    while i < v.len()
        invariant
            i <= v@.len(),
            r@ =~= v@.subrange(0, i as int),
        decreases v@.len() - i,
    {
        r.push(v[i]);
        i += 1;
    }
    proof {
        assert(v@.subrange(0, v@.len() as int) =~= v@);
    }
    r
}

/// Relies on `String::push`: appends exactly one character.
#[verifier::external_body]
fn push_char(s: &mut String, c: char)
    ensures
        final(s)@ == old(s)@.push(c),
{
    s.push(c);
}

/// Builds the string holding exactly the given characters.
fn chars_to_string(v: &Vec<char>) -> (r: String)
    ensures
        r@ == v@,
{
    let mut r = String::new();
    let mut i: usize = 0;
    while i < v.len()
        invariant
            i <= v@.len(),
            r@ =~= v@.subrange(0, i as int),
        decreases v@.len() - i,
    {
        push_char(&mut r, v[i]);
        proof {
            assert(v@.subrange(0, i + 1).drop_last() =~= v@.subrange(0, i as int));
        }
        i += 1;
    }
    proof {
        assert(v@.subrange(0, v@.len() as int) =~= v@);
    }
    r
}

/// Whether `a` is a prefix of `b`.
fn is_prefix(a: &Vec<char>, b: &Vec<char>) -> (r: bool)
    ensures
        r == a@.is_prefix_of(b@),
{
    if a.len() > b.len() {
        return false;
    }
    let mut i: usize = 0;
    while i < a.len()
        invariant
            i <= a@.len() <= b@.len(),
            forall|j: int| 0 <= j < i ==> a@[j] == b@[j],
        decreases a@.len() - i,
    {
        if a[i] != b[i] {
            proof {
                assert(b@.subrange(0, a@.len() as int)[i as int] == b@[i as int]);
            }
            return false;
        }
        i += 1;
    }
    proof {
        assert(a@ =~= b@.subrange(0, a@.len() as int));
    }
    true
}

impl FuzzyMatchModel {
    /// The session's structural invariant: the cursor sits inside the query,
    /// and the engine's pattern holds exactly the current query text.
    pub open spec fn wf(&self) -> bool {
        &&& self.cursor_position <= self.input@.len()
        &&& feed_pattern(self.feed) == self.input@
    }

    /// Builds a session over the given candidates. Every candidate is pushed
    /// into a fresh engine, in order; the first row starts selected when any
    /// candidate exists.
    pub fn new(list: Vec<String>, optimise_directories: bool) -> (r: Self)
        ensures
            r.wf(),
            r.running,
            r.result is None,
            r.input@ == Seq::<char>::empty(),
            r.prev_input@ == Seq::<char>::empty(),
            r.cursor_position == 0,
            r.height == 0,
            r.items.selected == (if list@.len() > 0 {
                Some(0usize)
            } else {
                None::<usize>
            }),
            r.items.last_selected is None,
            r.snapshot.matched_items@ == Seq::<(String, Vec<u32>)>::empty(),
            r.snapshot.matched_item_count == 0,
            r.snapshot.total_item_count == 0,
            feed_contents(r.feed).len() == list@.len(),
            forall|j: int| 0 <= j < list@.len()
                ==> feed_contents(r.feed)[j] == engine_text((#[trigger] list@[j])@),
            forall|j: int| 0 <= j < list@.len() && vstd::utf8::is_ascii_chars((#[trigger] list@[j])@)
                ==> feed_contents(r.feed)[j] == list@[j]@,
    {
        let mut feed = Feed::new(optimise_directories);
        let mut i: usize = 0;
        while i < list.len()
            invariant
                i <= list@.len(),
                feed_pattern(feed) == Seq::<char>::empty(),
                feed_contents(feed).len() == i,
                forall|j: int| 0 <= j < i
                    ==> feed_contents(feed)[j] == engine_text((#[trigger] list@[j])@),
                forall|j: int| 0 <= j < i && vstd::utf8::is_ascii_chars((#[trigger] list@[j])@)
                    ==> feed_contents(feed)[j] == list@[j]@,
            decreases list@.len() - i,
        {
            feed.push(&list[i]);
            i += 1;
        }
        let selected: Option<usize> = if list.len() > 0 {
            Some(0)
        } else {
            None
        };
        FuzzyMatchModel {
            running: true,
            result: None,
            input: Vec::new(),
            prev_input: Vec::new(),
            items: StatefulList { selected, last_selected: None },
            cursor_position: 0,
            snapshot: Snapshot { matched_items: Vec::new(), matched_item_count: 0, total_item_count: 0 },
            height: 0,
            feed,
        }
    }

    /// Advances the engine by a bounded slice of work, pulls a snapshot
    /// bounded by the render height, sorts and deduplicates every row's
    /// highlight indices, and re-validates the selection against the new
    /// matched count. Afterwards the selection is unset or strictly below
    /// the matched count, whatever happened before.
    pub fn tick(&mut self)
        requires
            old(self).wf(),
        ensures
            final(self).wf(),
            final(self).running == old(self).running,
            final(self).result == old(self).result,
            final(self).input == old(self).input,
            final(self).prev_input == old(self).prev_input,
            final(self).cursor_position == old(self).cursor_position,
            final(self).height == old(self).height,
            feed_contents(final(self).feed) == feed_contents(old(self).feed),
            feed_pattern(final(self).feed) == feed_pattern(old(self).feed),
            final(self).snapshot.matched_item_count <= final(self).snapshot.total_item_count,
            final(self).snapshot.matched_items@.len() == (
            if final(self).snapshot.matched_item_count <= old(self).height as int {
                final(self).snapshot.matched_item_count as int
            } else {
                old(self).height as int
            }),
            forall|i: int| 0 <= i < final(self).snapshot.matched_items@.len()
                ==> feed_contents(old(self).feed).contains(
                    (#[trigger] final(self).snapshot.matched_items@[i]).0@,
                ),
            forall|i: int| 0 <= i < final(self).snapshot.matched_items@.len()
                ==> strictly_sorted((#[trigger] final(self).snapshot.matched_items@[i]).1@),
            final(self).items.selected == revalidated_selection(
                old(self).items.selected,
                final(self).snapshot.matched_item_count,
            ),
            final(self).items.last_selected == old(self).items.last_selected,
            final(self).items.selected is Some ==> final(self).items.selected->0
                < final(self).snapshot.matched_item_count,
    {
        self.feed.advance(100);
        let pulled = self.feed.pull(self.height);
        let rows = pulled.0;
        let matched = pulled.1;
        let total = pulled.2;
        let mut cleaned: Vec<(String, Vec<u32>)> = Vec::new();
        let mut i: usize = 0;
        while i < rows.len()
            invariant
                i <= rows@.len(),
                cleaned@.len() == i,
                forall|j: int| 0 <= j < rows@.len()
                    ==> feed_contents(self.feed).contains((#[trigger] rows@[j]).0@),
                forall|j: int| 0 <= j < i
                    ==> (#[trigger] cleaned@[j]).0@ == rows@[j].0@,
                forall|j: int| 0 <= j < i ==> strictly_sorted((#[trigger] cleaned@[j]).1@),
            decreases rows@.len() - i,
        {
            let text = rows[i].0.clone();
            let indices = sort_dedup(&rows[i].1);
            cleaned.push((text, indices));
            i += 1;
        }
        self.snapshot = Snapshot {
            matched_items: cleaned,
            matched_item_count: matched,
            total_item_count: total,
        };
        if matched == 0 {
            self.items.selected = None;
        } else {
            match self.items.selected {
                Some(s) => {
                    if s >= matched {
                        self.items.selected = Some(matched - 1);
                    }
                },
                None => {},
            }
        }
    }

    /// Records the render surface's row count; later ticks pull snapshots of
    /// at most this many rows.
    pub fn update_height(&mut self, height: u32)
        requires
            old(self).wf(),
        ensures
            final(self).wf(),
            final(self).height == height,
            *final(self) == (FuzzyMatchModel { height, ..*old(self) }),
    {
        self.height = height;
    }

    /// The most recent snapshot.
    pub fn snapshot(&self) -> (r: &Snapshot)
        ensures
            r == &self.snapshot,
    {
        &self.snapshot
    }

    /// Ends the session without committing a selection.
    pub fn quit(&mut self)
        requires
            old(self).wf(),
        ensures
            final(self).wf(),
            !final(self).running,
            *final(self) == (FuzzyMatchModel { running: false, ..*old(self) }),
    {
        self.running = false;
    }

    /// Commits the selected visible row, if the selection points at one:
    /// the row's text becomes the result. A selection beyond the visible
    /// window clears the result; no selection leaves it untouched.
    pub fn select(&mut self)
        requires
            old(self).wf(),
        ensures
            final(self).wf(),
            selection_committed(*old(self), *final(self)),
    {
        match self.items.selected {
            Some(i) => {
                if i < self.snapshot.matched_items.len() {
                    self.result = Some(self.snapshot.matched_items[i].0.clone());
                } else {
                    self.result = None;
                }
            },
            None => {},
        }
    }

    /// Moves the cursor one character left, stopping at the start; the
    /// result is clamped into the query.
    pub fn move_cursor_left(&mut self)
        ensures
            final(self).cursor_position == clamped(
                if old(self).cursor_position > 0 {
                    old(self).cursor_position - 1
                } else {
                    0int
                },
                old(self).input@.len() as int,
            ),
            *final(self) == (FuzzyMatchModel {
                cursor_position: final(self).cursor_position,
                ..*old(self)
            }),
    {
        let moved: usize = if self.cursor_position > 0 {
            self.cursor_position - 1
        } else {
            0
        };
        let clamped = self.clamp_cursor(moved);
        self.cursor_position = clamped;
    }

    /// Moves the cursor one character right, stopping at the end of the
    /// query.
    pub fn move_cursor_right(&mut self)
        ensures
            final(self).cursor_position == clamped(
                if old(self).cursor_position < old(self).input@.len() {
                    old(self).cursor_position + 1
                } else {
                    old(self).cursor_position as int
                },
                old(self).input@.len() as int,
            ),
            *final(self) == (FuzzyMatchModel {
                cursor_position: final(self).cursor_position,
                ..*old(self)
            }),
    {
        let moved: usize = if self.cursor_position < self.input.len() {
            self.cursor_position + 1
        } else {
            self.cursor_position
        };
        let clamped = self.clamp_cursor(moved);
        self.cursor_position = clamped;
    }

    /// Clamps a cursor position into the query: positions past the end of
    /// the query land on its end.
    pub fn clamp_cursor(&self, new_cursor_pos: usize) -> (r: usize)
        ensures
            r == clamped(new_cursor_pos as int, self.input@.len() as int),
    {
        if new_cursor_pos <= self.input.len() {
            new_cursor_pos
        } else {
            self.input.len()
        }
    }

    /// Puts the cursor back at the start of the query.
    pub fn reset_cursor(&mut self)
        requires
            old(self).wf(),
        ensures
            final(self).wf(),
            final(self).cursor_position == 0,
            *final(self) == (FuzzyMatchModel { cursor_position: 0, ..*old(self) }),
    {
        self.cursor_position = 0;
    }

    /// The query as a string.
    pub fn input_text(&self) -> (r: String)
        ensures
            r@ == self.input@,
    {
        chars_to_string(&self.input)
    }

    /// Hands the edited query to the engine: the selection returns to the
    /// top row, and the engine learns the new pattern together with whether
    /// it extends the query it was matching before (then prior results can
    /// be refined rather than rescanned).
    fn update_input(&mut self)
        requires
            old(self).cursor_position <= old(self).input@.len(),
            feed_pattern(old(self).feed) == old(self).prev_input@,
        ensures
            final(self).wf(),
            final(self).items.selected == Some(0usize),
            final(self).items.last_selected == old(self).items.last_selected,
            feed_contents(final(self).feed) == feed_contents(old(self).feed),
            feed_pattern(final(self).feed) == final(self).input@,
            *final(self) == (FuzzyMatchModel {
                items: StatefulList {
                    selected: Some(0usize),
                    last_selected: old(self).items.last_selected,
                },
                feed: final(self).feed,
                ..*old(self)
            }),
    {
        self.items.selected = Some(0);
        let refinement = is_prefix(&self.prev_input, &self.input);
        let query = chars_to_string(&self.input);
        self.feed.set_pattern(&query, refinement);
    }

    /// Inserts a character at the cursor and advances the cursor past it,
    /// then reparses: the old query is a prefix of the new one exactly when
    /// the insertion happened at the end.
    pub fn enter_char(&mut self, new_char: char)
        requires
            old(self).wf(),
            old(self).input@.len() < usize::MAX,
        ensures
            final(self).wf(),
            char_entered(*old(self), *final(self), new_char),
    {
        let prev = copy_chars(&self.input);
        self.prev_input = prev;
        self.input.insert(self.cursor_position, new_char);
        self.move_cursor_right();
        self.update_input();
    }

    /// Moves the selection one step down the ranked list, wrapping at the
    /// end of the matched range.
    pub fn up(&mut self)
        requires
            old(self).wf(),
        ensures
            final(self).wf(),
            final(self).items.selected == next_selection(
                old(self).items.selected,
                old(self).items.last_selected,
                old(self).snapshot.matched_item_count,
            ),
            final(self).items.last_selected == old(self).items.last_selected,
            *final(self) == (FuzzyMatchModel { items: final(self).items, ..*old(self) }),
    {
        let matched = self.snapshot.matched_item_count;
        self.items.next(matched);
    }

    /// Moves the selection one step up the ranked list, wrapping at the top
    /// of the matched range.
    pub fn down(&mut self)
        requires
            old(self).wf(),
        ensures
            final(self).wf(),
            final(self).items.selected == previous_selection(
                old(self).items.selected,
                old(self).items.last_selected,
                old(self).snapshot.matched_item_count,
            ),
            final(self).items.last_selected == old(self).items.last_selected,
            *final(self) == (FuzzyMatchModel { items: final(self).items, ..*old(self) }),
    {
        let matched = self.snapshot.matched_item_count;
        self.items.previous(matched);
    }

    /// Removes the character before the cursor and moves the cursor back
    /// one, then reparses. With the cursor at the start there is nothing
    /// before it: the query and cursor stay exactly as they are.
    pub fn delete_char(&mut self)
        requires
            old(self).wf(),
        ensures
            final(self).wf(),
            char_deleted(*old(self), *final(self)),
    {
        let prev = copy_chars(&self.input);
        self.prev_input = prev;
        if self.cursor_position != 0 {
            self.input.remove(self.cursor_position - 1);
            self.move_cursor_left();
        }
        self.update_input();
    }

    /// Applies one key press to the session, as the interaction loop does:
    /// Enter commits the selection, the arrow keys move it, Esc — and the
    /// character `c` with the control modifier — ends the session, any other
    /// typed character enters the query at the cursor, and Backspace deletes
    /// the character before it; any other key does nothing.
    pub fn handle_key(&mut self, key: KeyPress, ctrl: bool)
        requires
            old(self).wf(),
            old(self).input@.len() < usize::MAX,
        ensures
            final(self).wf(),
            key == KeyPress::Enter ==> selection_committed(*old(self), *final(self)),
            key == KeyPress::Up ==> *final(self) == (FuzzyMatchModel {
                items: StatefulList {
                    selected: next_selection(
                        old(self).items.selected,
                        old(self).items.last_selected,
                        old(self).snapshot.matched_item_count,
                    ),
                    last_selected: old(self).items.last_selected,
                },
                ..*old(self)
            }),
            key == KeyPress::Down ==> *final(self) == (FuzzyMatchModel {
                items: StatefulList {
                    selected: previous_selection(
                        old(self).items.selected,
                        old(self).items.last_selected,
                        old(self).snapshot.matched_item_count,
                    ),
                    last_selected: old(self).items.last_selected,
                },
                ..*old(self)
            }),
            key == KeyPress::Esc ==> *final(self) == (FuzzyMatchModel {
                running: false,
                ..*old(self)
            }),
            key == KeyPress::Backspace ==> char_deleted(*old(self), *final(self)),
            forall|c: char|
                key == KeyPress::Char(c) ==> (if ctrl && (c == 'c' || c == 'C') {
                    *final(self) == (FuzzyMatchModel { running: false, ..*old(self) })
                } else {
                    char_entered(*old(self), *final(self), c)
                }),
            key == KeyPress::Other ==> *final(self) == *old(self),
    {
        match key {
            KeyPress::Enter => self.select(),
            KeyPress::Up => self.up(),
            KeyPress::Down => self.down(),
            KeyPress::Esc => self.quit(),
            KeyPress::Backspace => self.delete_char(),
            KeyPress::Char(c) => {
                if ctrl && (c == 'c' || c == 'C') {
                    self.quit();
                } else {
                    self.enter_char(c);
                }
            },
            KeyPress::Other => {},
        }
    }
}

} // verus!
