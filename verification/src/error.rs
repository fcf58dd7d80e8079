//! Error channel: a thread-scoped last-error cell, set by any fallible
//! boundary call that fails and read and cleared explicitly by the
//! caller.  Each execution thread owns its own `ErrorChannel` value, so
//! a failure on one thread is never observable from another.

use vstd::prelude::*;

verus! {

/// The failure conditions a boundary call can report.
#[derive(Clone, Copy, Debug, PartialEq, Eq, Structural)]
pub enum BoundaryError {
    /// No source in the registry owns the requested domain.
    SourceNotFound,
    /// The extraction engine failed; its reason text is preserved
    /// verbatim in the error channel.
    EngineFailure,
    /// The page cursor has served every page: a terminal, expected
    /// end-of-sequence condition, not a fault.
    NoMorePages,
    /// Caller-supplied bytes do not decode as well-formed text.
    MalformedText,
}

/// The text a take or peek yields for a channel state: the stored
/// message when one is set, empty text otherwise.
pub open spec fn read_message(state: Option<Seq<u8>>) -> Seq<u8> {
    match state {
        Some(m) => m,
        None => Seq::empty(),
    }
}

/// The last-error cell.  Two states: empty, or set with the reason
/// text of the most recent failure.
pub struct ErrorChannel {
    last: Option<Vec<u8>>,
}

impl ErrorChannel {
    /// The channel's state: `None` when empty, the stored reason
    /// otherwise.
    pub closed spec fn state(self) -> Option<Seq<u8>> {
        match self.last {
            Some(v) => Some(v@),
            None => None,
        }
    }

    /// A fresh, empty channel.
    pub fn new() -> (c: ErrorChannel)
        ensures
            c.state() is None,
    {
        ErrorChannel { last: None }
    }

    /// Record a failure's reason, overwriting any earlier one.
    pub fn update_last_error(&mut self, msg: Vec<u8>)
        ensures
            final(self).state() == Some(msg@),
    {
        self.last = Some(msg);
    }

    /// Whether a failure has been recorded and not yet taken.
    pub fn has_last_error(&self) -> (r: bool)
        ensures
            r == (self.state() is Some),
    {
        self.last.is_some()
    }

    /// Read and clear: yields the stored reason (empty text when the
    /// channel is empty) and leaves the channel empty.
    pub fn take_last_error(&mut self) -> (r: Vec<u8>)
        ensures
            final(self).state() is None,
            r@ == read_message(old(self).state()),
    {
        let prev = self.last.take();
        match prev {
            Some(v) => v,
            None => Vec::new(),
        }
    }

    /// Read without clearing: yields a copy of the stored reason,
    /// empty text when the channel is empty.
    pub fn peek_last_error(&self) -> (r: Vec<u8>)
        ensures
            r@ == read_message(self.state()),
    {
        match &self.last {
            Some(v) => {
                let c = v.clone();
                proof {
                    assert(c@ =~= v@);
                }
                c
            },
            None => Vec::new(),
        }
    }

    /// Length of the stored reason, for pre-sizing a caller buffer;
    /// zero when the channel is empty.
    pub fn last_error_length(&self) -> (n: usize)
        ensures
            n == read_message(self.state()).len(),
    {
        match &self.last {
            Some(v) => v.len(),
            None => 0,
        }
    }
}

/// Taking the last error round-trips: immediately after a failing call
/// stored its (non-empty) reason, a take yields non-empty text and
/// empties the channel, so a second immediate take yields empty text.
pub proof fn lemma_take_round_trip(reason: Seq<u8>)
    requires
        reason.len() > 0,
    ensures
        read_message(Some(reason)).len() > 0,
        read_message(None::<Seq<u8>>).len() == 0,
{
}

} // verus!
