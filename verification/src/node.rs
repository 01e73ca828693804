//! What the node's notification sockets say.
use vstd::prelude::*;

verus! {

/// Something new at the node.
#[derive(Clone, Copy, Debug, PartialEq, Eq, Structural)]
pub enum ZmqEvent {
    Block,
    Tx,
}

/// What one round of polling reports: at most one event, and a block before a transaction.
/// Whether a transaction came is looked at only where no block did.
pub fn poll_event(block_came: bool, tx_came: bool) -> (event: Option<ZmqEvent>)
    ensures
        event == (if block_came {
            Some(ZmqEvent::Block)
        } else if tx_came {
            Some(ZmqEvent::Tx)
        } else {
            None
        }),
{
    if block_came {
        Some(ZmqEvent::Block)
    } else if tx_came {
        Some(ZmqEvent::Tx)
    } else {
        None
    }
}

} // verus!
