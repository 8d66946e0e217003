//! Decisions of the optional on-screen presentation: the rendered frame is
//! copied to the window until the window reports that it was closed.
use vstd::prelude::*;

verus! {

/// Pause between two presentation rounds, in milliseconds.
pub const IDLE_DELAY_MS: u64 = 10;

/// What the window system reported since the last round, as far as the
/// presentation cares.
#[derive(Clone, Copy, Debug, PartialEq, Eq, Structural)]
pub enum WindowSignal {
    CloseRequested,
    Other,
}

/// What the presentation does next.
#[derive(Clone, Copy, Debug, PartialEq, Eq, Structural)]
pub enum PresentAction {
    /// Wait the idle delay, copy the frame to the window, then poll again.
    Blit,
    /// Leave the presentation.
    Stop,
}

/// One of the signals asks for the window to close.
pub open spec fn close_requested(signals: Seq<WindowSignal>) -> bool {
    exists|i: int| 0 <= i < signals.len() && signals[i] == WindowSignal::CloseRequested
}

/// Whether the window is closed after a round that delivered `signals`.
pub fn after_round(closed: bool, signals: &Vec<WindowSignal>) -> (r: bool)
    ensures
        r == (closed || close_requested(signals@)),
{
    let mut seen = closed;
    let mut i: usize = 0;
    while i < signals.len()
        invariant
            i <= signals@.len(),
            seen == (closed || exists|j: int|
                0 <= j < i && signals@[j] == WindowSignal::CloseRequested),
        decreases signals@.len() - i,
    {
        if signals[i] == WindowSignal::CloseRequested {
            seen = true;
        }
        i += 1;
    }
    seen
}

/// The next step: a shown render is presented until the window is closed; a
/// hidden one is not presented at all.
pub fn next_action(visible: bool, closed: bool) -> (r: PresentAction)
    ensures
        r == (if visible && !closed {
            PresentAction::Blit
        } else {
            PresentAction::Stop
        }),
{
    if visible && !closed {
        PresentAction::Blit
    } else {
        PresentAction::Stop
    }
}

} // verus!
