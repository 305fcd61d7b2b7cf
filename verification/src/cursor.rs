//! Cursor-capture decisions.
//!
//! A stateless edge-triggered mapping: pressing the primary pointer button
//! asks the windowing host to capture (lock and hide) the cursor, and
//! pressing the cancel key asks it to release. When both arrive in one
//! frame the release wins, since it is applied after the capture.

use vstd::prelude::*;

verus! {

/// What the windowing host is asked to do with the cursor.
#[derive(Clone, Copy, PartialEq, Eq, Structural, Debug)]
pub enum CursorAction {
    /// Lock the cursor to the window and hide it.
    Capture,
    /// Free the cursor and show it again.
    Release,
}

/// The action one frame of edge events asks for: cancel releases, the
/// primary button captures, and a frame with both ends released.
pub open spec fn cursor_action_of(primary_just_pressed: bool, cancel_just_pressed: bool) -> Option<
    CursorAction,
> {
    if cancel_just_pressed {
        Some(CursorAction::Release)
    } else if primary_just_pressed {
        Some(CursorAction::Capture)
    } else {
        None
    }
}

/// Computes `cursor_action_of` exactly.
pub fn cursor_action(primary_just_pressed: bool, cancel_just_pressed: bool) -> (r: Option<
    CursorAction,
>)
    ensures
        r == cursor_action_of(primary_just_pressed, cancel_just_pressed),
{
    if cancel_just_pressed {
        Some(CursorAction::Release)
    } else if primary_just_pressed {
        Some(CursorAction::Capture)
    } else {
        None
    }
}

} // verus!
