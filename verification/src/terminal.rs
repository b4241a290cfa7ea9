//! What the library asks of a terminal: a small vocabulary of operations
//! that a caller carries out, in order, on the real device.

use vstd::prelude::*;

verus! {

/// Switches the terminal to its alternate screen buffer.
pub const ENTER_ALTERNATE_SCREEN: &'static str = "\x1b[?1049h";

/// Switches the terminal back from its alternate screen buffer.
pub const LEAVE_ALTERNATE_SCREEN: &'static str = "\x1b[?1049l";

/// One operation on the terminal.
#[derive(Debug, PartialEq, Eq)]
pub enum TermOp {
    /// Write [`ENTER_ALTERNATE_SCREEN`] to the output as it stands.
    EnterAlternateScreen,
    /// Write [`LEAVE_ALTERNATE_SCREEN`] to the output as it stands.
    LeaveAlternateScreen,
    HideCursor,
    ShowCursor,
    ClearScreen,
    /// Put the cursor in column `x` of line `y`; the origin is `(0, 0)`.
    MoveCursorTo { x: usize, y: usize },
    /// Write the text and end the line.
    WriteLine(String),
    Flush,
}

/// A [`TermOp`] as a mathematical value: text is a sequence of characters.
pub enum TermOpView {
    EnterAlternateScreen,
    LeaveAlternateScreen,
    HideCursor,
    ShowCursor,
    ClearScreen,
    MoveCursorTo { x: usize, y: usize },
    WriteLine(Seq<char>),
    Flush,
}

impl View for TermOp {
    type V = TermOpView;

    open spec fn view(&self) -> TermOpView {
        match self {
            TermOp::EnterAlternateScreen => TermOpView::EnterAlternateScreen,
            TermOp::LeaveAlternateScreen => TermOpView::LeaveAlternateScreen,
            TermOp::HideCursor => TermOpView::HideCursor,
            TermOp::ShowCursor => TermOpView::ShowCursor,
            TermOp::ClearScreen => TermOpView::ClearScreen,
            TermOp::MoveCursorTo { x, y } => TermOpView::MoveCursorTo { x: *x, y: *y },
            TermOp::WriteLine(text) => TermOpView::WriteLine(text@),
            TermOp::Flush => TermOpView::Flush,
        }
    }
}

impl Clone for TermOp {
    fn clone(&self) -> (copy: Self)
        ensures
            copy@ == self@,
    {
        match self {
            TermOp::EnterAlternateScreen => TermOp::EnterAlternateScreen,
            TermOp::LeaveAlternateScreen => TermOp::LeaveAlternateScreen,
            TermOp::HideCursor => TermOp::HideCursor,
            TermOp::ShowCursor => TermOp::ShowCursor,
            TermOp::ClearScreen => TermOp::ClearScreen,
            TermOp::MoveCursorTo { x, y } => TermOp::MoveCursorTo { x: *x, y: *y },
            TermOp::WriteLine(text) => TermOp::WriteLine(text.clone()),
            TermOp::Flush => TermOp::Flush,
        }
    }
}

/// The views of a run of operations, in order.
pub open spec fn ops_view(ops: Seq<TermOp>) -> Seq<TermOpView> {
    Seq::new(ops.len(), |i: int| ops[i]@)
}

/// The control sequence that an operation writes as raw text, for the two
/// operations that are defined by one.
pub open spec fn raw_text(op: TermOpView) -> Option<Seq<char>> {
    match op {
        TermOpView::EnterAlternateScreen => Some(ENTER_ALTERNATE_SCREEN@),
        TermOpView::LeaveAlternateScreen => Some(LEAVE_ALTERNATE_SCREEN@),
        _ => None,
    }
}

impl TermOp {
    /// Computes [`raw_text`].
    pub fn raw_sequence(&self) -> (raw: Option<&'static str>)
        ensures
            match raw {
                Some(text) => raw_text(self@) == Some(text@),
                None => raw_text(self@) is None,
            },
    {
        match self {
            TermOp::EnterAlternateScreen => Some(ENTER_ALTERNATE_SCREEN),
            TermOp::LeaveAlternateScreen => Some(LEAVE_ALTERNATE_SCREEN),
            _ => None,
        }
    }
}

} // verus!
