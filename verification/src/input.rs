//! What the display reports of the operator: the input events that were
//! queued when it was polled, and whether they ask to quit.

use vstd::prelude::*;

verus! {

/// The keys that matter to a session.
#[derive(Clone, Copy, Debug, PartialEq, Eq, Structural)]
pub enum Key {
    Escape,
    Other,
}

/// One input event from the display's queue.
#[derive(Clone, Copy, Debug, PartialEq, Eq, Structural)]
pub enum InputEvent {
    /// The operator closed the window or otherwise asked to quit.
    Quit,
    /// A key went down; `None` where the display could not name the key.
    KeyDown(Option<Key>),
    /// Anything else.
    Other,
}

impl InputEvent {
    /// Whether this event asks to end the capture loop: a quit request, or
    /// the escape key going down.
    pub open spec fn asks_to_quit(self) -> bool {
        self == InputEvent::Quit || self == InputEvent::KeyDown(Some(Key::Escape))
    }

    /// Whether this event asks to end the capture loop.
    pub fn is_quit_request(&self) -> (b: bool)
        ensures
            b == self.asks_to_quit(),
    {
        match self {
            InputEvent::Quit => true,
            InputEvent::KeyDown(Some(Key::Escape)) => true,
            _ => false,
        }
    }
}

/// Whether some event of the batch asks to quit.
pub open spec fn quit_requested(batch: Seq<InputEvent>) -> bool {
    exists|i: int| 0 <= i < batch.len() && (#[trigger] batch[i]).asks_to_quit()
}

/// Looks through one batch of input events for a request to quit.
pub fn batch_requests_quit(batch: &Vec<InputEvent>) -> (quit: bool)
    ensures
        quit == quit_requested(batch@),
{
    let mut i: usize = 0;
    while i < batch.len()
        invariant
            i <= batch.len(),
            forall|j: int| 0 <= j < i ==> !(#[trigger] batch@[j]).asks_to_quit(),
        decreases batch.len() - i,
    {
        if batch[i].is_quit_request() {
            return true;
        }
        i += 1;
    }
    false
}

/// One quit request anywhere in a batch is enough, whatever surrounds it.
pub proof fn lemma_quit_anywhere(batch: Seq<InputEvent>, i: int)
    requires
        0 <= i < batch.len(),
        batch[i].asks_to_quit(),
    ensures
        quit_requested(batch),
{
}

} // verus!
