//! Text cursors: a position, an optional selection, and the queries a
//! text component asks of them.

use vstd::prelude::*;

verus! {

/// A position of a character in a text component.
#[derive(Clone, Copy, Debug, PartialEq, Eq, Hash, Structural)]
pub struct CharPosition {
    pub line: usize,
    pub column: usize,
}

/// Strict order of positions: first by line, then by column.
pub open spec fn pos_lt(a: CharPosition, b: CharPosition) -> bool {
    a.line < b.line || (a.line == b.line && a.column < b.column)
}

/// Non-strict order of positions.
pub open spec fn pos_le(a: CharPosition, b: CharPosition) -> bool {
    pos_lt(a, b) || a == b
}

impl CharPosition {
    /// Whether this position comes strictly before `other`.
    pub fn precedes(&self, other: &CharPosition) -> (r: bool)
        ensures
            r == pos_lt(*self, *other),
    {
        self.line < other.line || (self.line == other.line && self.column < other.column)
    }
}

/// The lines of a text component, each line one string.
#[derive(Clone, Debug)]
pub struct TextComponentContent {
    pub lines: Vec<String>,
}

/// A half-open span of positions: from `start` inclusive to `end`
/// exclusive.
#[derive(Clone, Copy, Debug, PartialEq, Eq, Hash, Structural)]
pub struct CharRange {
    pub start: CharPosition,
    pub end: CharPosition,
}

/// Cursor in a text component, with its selection. The selection spans
/// between `position` and `selected_to`, whichever order they are in.
#[derive(Clone, Copy, Debug, PartialEq, Eq, Hash, Structural)]
pub struct Cursor {
    pub position: CharPosition,
    pub selected_to: CharPosition,
}

/// The span a cursor selects: from the earlier of its two ends to the
/// later, empty when they coincide.
pub open spec fn selection_span(c: Cursor) -> CharRange {
    if pos_lt(c.selected_to, c.position) {
        CharRange { start: c.selected_to, end: c.position }
    } else {
        CharRange { start: c.position, end: c.selected_to }
    }
}

impl Cursor {
    /// A cursor at `position` without any selection.
    pub fn new(position: CharPosition) -> (r: Self)
        ensures
            r.position == position,
            r.selected_to == position,
    {
        Cursor { position, selected_to: position }
    }

    /// The span of text this cursor selects: its lower end first, and the
    /// two ends equal when nothing is selected.
    pub fn selection_range(&self) -> (r: CharRange)
        ensures
            r == selection_span(*self),
            pos_le(r.start, r.end),
    {
        if self.selected_to.precedes(&self.position) {
            CharRange { start: self.selected_to, end: self.position }
        } else {
            CharRange { start: self.position, end: self.selected_to }
        }
    }

    /// Whether the character at `position` lies in this cursor's
    /// selection.
    pub fn is_char_selected(&self, position: CharPosition) -> (r: bool)
        ensures
            r == (pos_le(selection_span(*self).start, position) && pos_lt(
                position,
                selection_span(*self).end,
            )),
    {
        let range = self.selection_range();
        let after_start = !position.precedes(&range.start);
        let before_end = position.precedes(&range.end);
        after_start && before_end
    }

    /// The content line this cursor's column field points at.
    pub fn current_line<'a>(&self, content: &'a TextComponentContent) -> (line: &'a String)
        requires
            self.position.column < content.lines@.len(),
        ensures
            line == content.lines@[self.position.column as int],
    {
        &content.lines[self.position.column]
    }
}

} // verus!
