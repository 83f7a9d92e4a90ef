//! A mail transport that keeps what it is given, for use where no real
//! transport is at hand.

use crate::route::error::CauseChain;
use crate::route::subscriptions::{ConfirmationEmail, ConfirmationEmailView};
use vstd::prelude::*;

verus! {

/// Messages that were handed over for dispatch, and whether more are taken.
pub struct Outbox {
    /// Whether the transport takes messages at present.
    pub accepting: bool,
    /// What it has taken so far, oldest first.
    pub delivered: Vec<ConfirmationEmail>,
}

/// The plain contents of an `Outbox`.
pub struct OutboxView {
    pub accepting: bool,
    pub delivered: Seq<ConfirmationEmailView>,
}

/// What the transport says when it takes no message.
pub open spec fn dispatch_failure() -> Seq<char> {
    "the mail transport cannot be reached"@
}

impl View for Outbox {
    type V = OutboxView;

    open spec fn view(&self) -> OutboxView {
        OutboxView {
            accepting: self.accepting,
            delivered: Seq::new(self.delivered@.len(), |i: int| self.delivered@[i]@),
        }
    }
}

impl Outbox {
    /// An empty outbox that takes messages.
    pub fn new() -> (outbox: Outbox)
        ensures
            outbox@.accepting,
            outbox@.delivered == Seq::<ConfirmationEmailView>::empty(),
    {
        let outbox = Outbox { accepting: true, delivered: Vec::new() };
        outbox
    }

    /// Takes `email` for dispatch, or fails and keeps nothing.
    pub fn send(&mut self, email: ConfirmationEmail) -> (sent: Result<(), CauseChain>)
        ensures
            final(self)@.accepting == old(self)@.accepting,
            old(self)@.accepting ==> sent is Ok && final(self)@.delivered == old(
                self,
            )@.delivered.push(email@),
            !old(self)@.accepting ==> final(self)@ == old(self)@ && (sent matches Err(cause)
                && cause@ == seq![dispatch_failure()]),
    {
        if self.accepting {
            self.delivered.push(email);
            Ok(())
        } else {
            Err(CauseChain::new("the mail transport cannot be reached"))
        }
    }
}

} // verus!
