//! The publish side of the transport, as the publisher sees it.

use vstd::prelude::*;

verus! {

/// A transport endpoint that takes whole messages and can be closed.
///
/// Sending is fire-and-forget: a successful `write` promises no delivery.
pub trait PubChannel: Sized {
    /// Holds when one call of `write` with `msg` may take the channel from
    /// `self` to `next`, whatever it returned. An implementation that does
    /// not refine it claims nothing.
    open spec fn takes(&self, next: &Self, msg: Seq<u8>) -> bool {
        true
    }

    /// Offers one message to the transport.
    fn write(&mut self, buf: &[u8]) -> (r: std::io::Result<usize>)
        ensures
            old(self).takes(final(self), buf@),
    ;

    /// Releases the transport endpoint.
    fn close(self) -> std::io::Result<()>;
}

/// Holds when `states` is a run of the channel that writes `msgs` one
/// after another, in order: each write takes one state to the next.
pub open spec fn writes_along<C: PubChannel>(states: Seq<C>, msgs: Seq<Seq<u8>>) -> bool {
    &&& states.len() == msgs.len() + 1
    &&& forall|i: int| 0 <= i < msgs.len() ==> #[trigger] states[i].takes(&states[i + 1], msgs[i])
}

/// Holds when writing `msgs` one after another, in order, may take the
/// channel from `from` to `to`.
pub open spec fn wrote_all<C: PubChannel>(from: C, to: C, msgs: Seq<Seq<u8>>) -> bool {
    exists|states: Seq<C>|
        #[trigger] writes_along(states, msgs) && states[0] == from && states.last() == to
}

} // verus!
