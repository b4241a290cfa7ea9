//! The terminal session guard: the state of the alternate screen and the
//! operations that enter and leave it.

use vstd::prelude::*;
use crate::terminal::{ops_view, TermOp, TermOpView};

verus! {

/// Which screen buffer the terminal shows.
#[derive(Clone, Copy, Debug, PartialEq, Eq, Structural)]
pub enum ScreenState {
    Normal,
    AlternateScreenActive,
}

/// What a caller does when the terminal refuses an operation.
#[derive(Clone, Copy, Debug, PartialEq, Eq, Structural)]
pub enum OnFailure {
    /// Stop and hand the error to the caller's caller.
    Propagate,
    /// Stop the process: there is nobody left to tell.
    Abort,
}

/// Owner of the terminal session state. The state changes only when the
/// alternate screen is entered or left.
#[derive(Debug)]
pub struct TerminalGuard {
    state: ScreenState,
}

impl View for TerminalGuard {
    type V = ScreenState;

    closed spec fn view(&self) -> ScreenState {
        self.state
    }
}

/// The operations that enter the alternate screen: the control sequence,
/// then hide the cursor, clear the screen, put the cursor at the origin,
/// and flush.
pub open spec fn enter_ops() -> Seq<TermOpView> {
    seq![
        TermOpView::EnterAlternateScreen,
        TermOpView::HideCursor,
        TermOpView::ClearScreen,
        TermOpView::MoveCursorTo { x: 0, y: 0 },
        TermOpView::Flush,
    ]
}

/// The operations that leave the alternate screen: the control sequence,
/// then show the cursor, and flush.
pub open spec fn leave_ops() -> Seq<TermOpView> {
    seq![TermOpView::LeaveAlternateScreen, TermOpView::ShowCursor, TermOpView::Flush]
}

impl TerminalGuard {
    /// A guard over a terminal that shows its normal screen.
    pub fn new() -> (guard: Self)
        ensures
            guard@ == ScreenState::Normal,
    {
        TerminalGuard { state: ScreenState::Normal }
    }

    /// The current state.
    pub fn state(&self) -> (state: ScreenState)
        ensures
            state == self@,
    {
        self.state
    }

    /// Enters the alternate screen: returns [`enter_ops`] for the caller
    /// to carry out in order. The alternate screen counts as active from
    /// here on, since the first operation may take effect even where a
    /// later one is refused. A refusal is met with
    /// [`TerminalGuard::enter_failure`].
    pub fn enter_alternate_screen(&mut self) -> (ops: Vec<TermOp>)
        ensures
            final(self)@ == ScreenState::AlternateScreenActive,
            ops_view(ops@) == enter_ops(),
    {
        self.state = ScreenState::AlternateScreenActive;
        let mut ops: Vec<TermOp> = Vec::new();
        ops.push(TermOp::EnterAlternateScreen);
        ops.push(TermOp::HideCursor);
        ops.push(TermOp::ClearScreen);
        ops.push(TermOp::MoveCursorTo { x: 0, y: 0 });
        ops.push(TermOp::Flush);
        ops
    }

    /// Leaves the alternate screen: returns [`leave_ops`] for the caller
    /// to carry out in order, whatever the state was, so that a cleanup
    /// path may call it without knowing how far entering came. A refusal
    /// is met with [`TerminalGuard::leave_failure`].
    pub fn leave_alternate_screen(&mut self) -> (ops: Vec<TermOp>)
        ensures
            final(self)@ == ScreenState::Normal,
            ops_view(ops@) == leave_ops(),
    {
        self.state = ScreenState::Normal;
        let mut ops: Vec<TermOp> = Vec::new();
        ops.push(TermOp::LeaveAlternateScreen);
        ops.push(TermOp::ShowCursor);
        ops.push(TermOp::Flush);
        ops
    }

    /// A failure while entering is an error of the caller's run.
    pub fn enter_failure() -> (policy: OnFailure)
        ensures
            policy == OnFailure::Propagate,
    {
        OnFailure::Propagate
    }

    /// A failure while leaving is fatal: the terminal must not stay in the
    /// alternate screen unnoticed.
    pub fn leave_failure() -> (policy: OnFailure)
        ensures
            policy == OnFailure::Abort,
    {
        OnFailure::Abort
    }
}

} // verus!
