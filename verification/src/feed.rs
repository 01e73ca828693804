//! The two readers of the pool's broadcasts: the web page's event stream and the forwarder to a
//! miner.
use crate::stratum::forward;
use vstd::prelude::*;

verus! {

/// What a reader of a broadcast gets.
pub enum Received {
    Message(String),
    /// Messages were lost because the reader was slow.
    Lagged,
    /// There is no sender any more.
    Closed,
}

/// What the event stream does next.
pub enum StreamStep {
    /// Pass a message on.
    Yield(String),
    /// Wait for the next one.
    Skip,
    End,
}

/// What the event stream does: it outlives lost messages and ends with its senders.
pub fn stream_step(received: Received) -> (step: StreamStep)
    ensures
        match received {
            Received::Message(message) => step == StreamStep::Yield(message),
            Received::Lagged => step is Skip,
            Received::Closed => step is End,
        },
{
    match received {
        Received::Message(message) => StreamStep::Yield(message),
        Received::Lagged => StreamStep::Skip,
        Received::Closed => StreamStep::End,
    }
}

/// What the forwarder to a miner does: it writes a message as a line, and stops at anything
/// else.
pub fn forward_step(received: &Received) -> (line: Option<String>)
    ensures
        match received {
            Received::Message(message) => line is Some && (line->0)@ == message@ + seq!['\n'],
            _ => line is None,
        },
{
    match received {
        Received::Message(message) => Some(forward(message)),
        _ => None,
    }
}

} // verus!
