//! The caret position shown to the user, derived from what the text widget
//! reports after each frame.

use vstd::prelude::*;

verus! {

/// Where the text widget says the caret is: a paragraph and an offset within
/// it, both counted from zero.
#[derive(Clone, Copy, Debug, PartialEq, Eq, Structural)]
pub struct ReportedPosition {
    /// Paragraphs before the caret's paragraph.
    pub paragraph_index: usize,
    /// Characters before the caret within its paragraph.
    pub offset: usize,
}

impl ReportedPosition {
    /// Both parts leave room for the step to a count from one.
    pub open spec fn displayable(self) -> bool {
        self.paragraph_index < usize::MAX && self.offset < usize::MAX
    }
}

/// The caret position as displayed: line and column, both counted from one.
#[derive(Clone, Copy, Debug, PartialEq, Eq, Structural)]
pub struct CursorPosition {
    /// The caret's line.
    pub line: usize,
    /// The caret's column.
    pub column: usize,
}

/// The position at start-up: first line, first column.
pub open spec fn home() -> CursorPosition {
    CursorPosition { line: 1, column: 1 }
}

/// The displayed position of a reported one: each part moves up by one.
pub open spec fn displayed(reported: ReportedPosition) -> CursorPosition
    recommends
        reported.displayable(),
{
    CursorPosition {
        line: (reported.paragraph_index + 1) as usize,
        column: (reported.offset + 1) as usize,
    }
}

/// The position to display after a frame: that of the report if there is
/// one, else the previous position.
pub open spec fn located(
    previous: CursorPosition,
    reported: Option<ReportedPosition>,
) -> CursorPosition {
    match reported {
        Some(position) => displayed(position),
        None => previous,
    }
}

/// A report is acceptable when it is absent or displayable.
pub open spec fn acceptable(reported: Option<ReportedPosition>) -> bool {
    match reported {
        Some(position) => position.displayable(),
        None => true,
    }
}

/// Keeps the last known caret position. Line and column of every value of
/// this type are at least one.
#[derive(Debug)]
pub struct CursorLocator {
    last: CursorPosition,
}

impl View for CursorLocator {
    type V = CursorPosition;

    closed spec fn view(&self) -> CursorPosition {
        self.last
    }
}

impl CursorLocator {
    /// What every locator satisfies: line and column count from one.
    #[verifier::type_invariant]
    pub open spec fn inv(&self) -> bool {
        self@.line >= 1 && self@.column >= 1
    }

    /// A locator at the home position.
    pub fn new() -> (locator: Self)
        ensures
            locator@ == home(),
    {
        CursorLocator { last: CursorPosition { line: 1, column: 1 } }
    }

    /// The last known position.
    pub fn position(&self) -> (position: CursorPosition)
        ensures
            position == self@,
            position.line >= 1,
            position.column >= 1,
    {
        proof {
            use_type_invariant(self);
        }
        self.last
    }

    /// Takes in one frame's report and returns the position to display. With
    /// no report the position stays as it was.
    pub fn update(&mut self, reported: Option<ReportedPosition>) -> (position: CursorPosition)
        requires
            acceptable(reported),
        ensures
            position == final(self)@,
            final(self)@ == located(old(self)@, reported),
            reported is None ==> final(self)@ == old(self)@,
            reported matches Some(r) ==> position.line == r.paragraph_index + 1
                && position.column == r.offset + 1,
        no_unwind
    {
        if let Some(r) = reported {
            self.last = CursorPosition { line: r.paragraph_index + 1, column: r.offset + 1 };
        }
        self.last
    }
}

/// Without a report the displayed position does not move, and with one it
/// does not depend on where the caret was before.
pub proof fn lemma_caret_is_sticky(
    previous: CursorPosition,
    other: CursorPosition,
    reported: ReportedPosition,
)
    ensures
        located(previous, None) == previous,
        located(previous, Some(reported)) == located(other, Some(reported)),
        reported.displayable() ==> located(previous, Some(reported)).line
            == reported.paragraph_index + 1,
        reported.displayable() ==> located(previous, Some(reported)).column == reported.offset
            + 1,
{
}

} // verus!
