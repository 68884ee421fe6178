//! An interactive command-line front-end, verified: an editable line with a
//! cursor, filesystem-driven completion (inline suggestion and a cyclable
//! candidate menu), a recall history, and a dispatcher that classifies a
//! confirmed line as a built-in directive or an external command.
//!
//! The library holds the state machine and its logic on plain values; the
//! terminal, filesystem, environment and process collaborators live outside
//! and hand the library listings and key events as plain data.

pub mod buffer;
pub mod completion;
pub mod dispatch;
pub mod history;
pub mod session;
pub mod text;

use vstd::prelude::*;

verus! {

/// How many cells the terminal caret must travel left, after the buffer and
/// the dimmed suggestion have been drawn, so that the visible caret lands on
/// the logical cursor position.
pub fn caret_back_cells(buffer_len: usize, suggestion_len: usize, cursor: usize) -> (r: usize)
    requires
        cursor <= buffer_len,
        buffer_len + suggestion_len <= usize::MAX,
    ensures
        r == buffer_len + suggestion_len - cursor,
{
    buffer_len + suggestion_len - cursor
}

} // verus!
