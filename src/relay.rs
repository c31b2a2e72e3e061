use vstd::prelude::*;

verus! {

/// Where a relay stands.
#[derive(Debug, Clone, Copy, PartialEq, Eq, Structural)]
pub enum RelayPhase {
    /// The rows are being fetched from the store.
    Materializing,
    /// Rows are being pushed into the bounded queue, one at a time.
    Relaying,
    /// Nothing more is pushed: the rows ran out or the consumer left.
    Closed,
}

/// What the producer does next.
#[derive(Debug, Clone, Copy, PartialEq, Eq, Structural)]
pub enum RelayAction {
    /// Push the row at this position, waiting while the queue is full.
    Send(usize),
    /// Every row was pushed: close the queue, so the consumer sees the end.
    Finish,
    /// The consumer is gone: stop without error.
    Abandon,
}

/// The relay as the contracts see it.
pub ghost struct RelayView {
    pub phase: RelayPhase,
    /// How many rows there are to relay.
    pub total: nat,
    /// How many rows the queue has accepted, in order.
    pub delivered: nat,
}

/// The producer side of a bounded queue that relays a fetched listing to its
/// consumer: rows go out in fetch order, each once, and the relay stops as
/// soon as a push fails.
pub struct Relay {
    phase: RelayPhase,
    total: usize,
    delivered: usize,
}

impl View for Relay {
    type V = RelayView;

    closed spec fn view(&self) -> RelayView {
        RelayView { phase: self.phase, total: self.total as nat, delivered: self.delivered as nat }
    }
}

impl Relay {
    /// At most every row is delivered, and a relaying relay has one left to push.
    pub open spec fn wf(&self) -> bool {
        &&& self@.delivered <= self@.total
        &&& self@.phase == RelayPhase::Relaying ==> self@.delivered < self@.total
        &&& self@.phase == RelayPhase::Materializing ==> self@.delivered == 0
    }

    /// A relay whose rows are still being fetched.
    pub fn new() -> (r: Self)
        ensures
            r.wf(),
            r@ == (RelayView { phase: RelayPhase::Materializing, total: 0, delivered: 0 }),
    {
        Relay { phase: RelayPhase::Materializing, total: 0, delivered: 0 }
    }

    pub fn phase(&self) -> (r: RelayPhase)
        ensures
            r == self@.phase,
    {
        self.phase
    }

    pub fn delivered(&self) -> (r: usize)
        ensures
            r == self@.delivered,
    {
        self.delivered
    }

    /// The fetch is done and gave `total` rows: push the first, if any.
    pub fn fetched(&mut self, total: usize) -> (r: RelayAction)
        requires
            old(self).wf(),
            old(self)@.phase == RelayPhase::Materializing,
        ensures
            final(self).wf(),
            final(self)@.total == total,
            final(self)@.delivered == 0,
            total == 0 ==> r == RelayAction::Finish && final(self)@.phase == RelayPhase::Closed,
            total > 0 ==> r == RelayAction::Send(0) && final(self)@.phase == RelayPhase::Relaying,
    {
        self.total = total;
        self.delivered = 0;
        if total == 0 {
            self.phase = RelayPhase::Closed;
            RelayAction::Finish
        } else {
            self.phase = RelayPhase::Relaying;
            RelayAction::Send(0)
        }
    }

    /// The outcome of the last push: `accepted` is false when the consumer is gone.
    pub fn pushed(&mut self, accepted: bool) -> (r: RelayAction)
        requires
            old(self).wf(),
            old(self)@.phase == RelayPhase::Relaying,
        ensures
            final(self).wf(),
            final(self)@.total == old(self)@.total,
            !accepted ==> r == RelayAction::Abandon && final(self)@ == (RelayView {
                phase: RelayPhase::Closed,
                ..old(self)@
            }),
            accepted ==> final(self)@.delivered == old(self)@.delivered + 1,
            accepted && final(self)@.delivered == old(self)@.total ==> r == RelayAction::Finish
                && final(self)@.phase == RelayPhase::Closed,
            accepted && final(self)@.delivered < old(self)@.total ==> (r matches RelayAction::Send(
                i,
            ) && i == final(self)@.delivered && final(self)@.phase == RelayPhase::Relaying),
    {
        if !accepted {
            self.phase = RelayPhase::Closed;
            return RelayAction::Abandon;
        }
        self.delivered = self.delivered + 1;
        if self.delivered == self.total {
            self.phase = RelayPhase::Closed;
            RelayAction::Finish
        } else {
            RelayAction::Send(self.delivered)
        }
    }
}

} // verus!
