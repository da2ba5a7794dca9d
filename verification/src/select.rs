//! Biased selection among the three event sources of a running session.

use vstd::prelude::*;

verus! {

/// What is known of one event source at the moment of selection.
#[derive(Clone, Copy, Debug, PartialEq, Eq, Structural)]
pub enum Readiness {
    /// The source has an item to hand out now.
    Ready,
    /// The source is open but has nothing at the moment.
    Pending,
    /// The source has ended and will hand out nothing more.
    Closed,
}

/// What the loop does next.
#[derive(Clone, Copy, Debug, PartialEq, Eq, Structural)]
pub enum Selection {
    /// Take a frame from the frame channel.
    Frame,
    /// Take a line of process output.
    Output,
    /// Take a client message.
    Client,
    /// Nothing is ready and some source is still open: suspend.
    Park,
    /// Every source has ended: leave the loop.
    Exhausted,
}

/// The selection rule: the first ready source in the fixed order frames,
/// process output, client input. Readiness of a later source never outranks
/// an earlier one. With nothing ready the loop ends only when all three
/// sources have ended.
pub open spec fn selected(frames: Readiness, output: Readiness, client: Readiness) -> Selection {
    if frames is Ready {
        Selection::Frame
    } else if output is Ready {
        Selection::Output
    } else if client is Ready {
        Selection::Client
    } else if frames is Closed && output is Closed && client is Closed {
        Selection::Exhausted
    } else {
        Selection::Park
    }
}

/// Picks the source to serve.
pub fn select(frames: Readiness, output: Readiness, client: Readiness) -> (selection: Selection)
    ensures
        selection == selected(frames, output, client),
        frames is Ready ==> selection is Frame,
        selection is Output ==> output is Ready && !(frames is Ready),
        selection is Client ==> client is Ready && !(frames is Ready) && !(output is Ready),
{
    match frames {
        Readiness::Ready => Selection::Frame,
        _ => match output {
            Readiness::Ready => Selection::Output,
            _ => match client {
                Readiness::Ready => Selection::Client,
                _ => match (frames, output, client) {
                    (Readiness::Closed, Readiness::Closed, Readiness::Closed) => {
                        Selection::Exhausted
                    },
                    _ => Selection::Park,
                },
            },
        },
    }
}

} // verus!
