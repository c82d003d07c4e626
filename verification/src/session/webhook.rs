//! How a notification is delivered to the store: at most three attempts, a
//! second apart, and whatever the store answers ends the delivery.

use vstd::prelude::*;

verus! {

/// The number of attempts after which a delivery is abandoned.
pub const MAX_ATTEMPTS: u8 = 3;

/// Seconds to pause after an attempt that failed.
pub const RETRY_PAUSE_SECS: u64 = 1;

/// How an attempt to post a notification ended.
#[derive(Debug, Clone, Copy, PartialEq, Eq, Structural)]
pub enum Outcome {
    /// The store answered, with this HTTP status.
    Responded { status: u16 },
    /// The request did not get through.
    Failed,
}

/// Where a delivery stands.
#[derive(Debug, Clone, Copy, PartialEq, Eq, Structural)]
pub enum Phase {
    /// The notification is to be posted.
    Sending,
    /// The last attempt failed; a pause is due.
    Pausing,
    /// The delivery is over.
    Finished,
}

/// What the one who delivers has to do next.
#[derive(Debug, Clone, Copy, PartialEq, Eq, Structural)]
pub enum Action {
    /// Post the notification and report the outcome with `sent`.
    Send,
    /// Sleep for so many seconds and report with `slept`.
    Sleep { secs: u64 },
    /// Nothing more: the delivery is over.
    Stop,
}

/// A delivery as contracts see it.
pub struct DeliveryView {
    pub attempts: nat,
    pub phase: Phase,
}

impl DeliveryView {
    /// A delivery never counts more than three attempts, and none is due
    /// once three were made.
    pub open spec fn wf(self) -> bool {
        self.attempts <= MAX_ATTEMPTS && (self.phase == Phase::Sending ==> self.attempts
            < MAX_ATTEMPTS)
    }

    /// A delivery that has not begun.
    pub open spec fn fresh() -> DeliveryView {
        DeliveryView { attempts: 0, phase: Phase::Sending }
    }

    /// The delivery after an attempt with this outcome. Any answer of the
    /// store ends the delivery; a failure calls for a pause.
    pub open spec fn sent(self, outcome: Outcome) -> DeliveryView {
        if self.phase == Phase::Sending {
            DeliveryView {
                attempts: self.attempts + 1,
                phase: if outcome is Responded {
                    Phase::Finished
                } else {
                    Phase::Pausing
                },
            }
        } else {
            self
        }
    }

    /// The delivery after the pause: another attempt if fewer than three
    /// were made, the end otherwise.
    pub open spec fn slept(self) -> DeliveryView {
        if self.phase == Phase::Pausing {
            DeliveryView {
                phase: if self.attempts < MAX_ATTEMPTS {
                    Phase::Sending
                } else {
                    Phase::Finished
                },
                ..self
            }
        } else {
            self
        }
    }

    /// What is to be done next.
    pub open spec fn next(self) -> Action {
        match self.phase {
            Phase::Sending => Action::Send,
            Phase::Pausing => Action::Sleep { secs: RETRY_PAUSE_SECS },
            Phase::Finished => Action::Stop,
        }
    }

    /// The delivery carried through against a store whose answers to the
    /// attempts are `outcomes`, as far as they reach.
    pub open spec fn run(self, outcomes: Seq<Outcome>) -> DeliveryView
        decreases outcomes.len(),
    {
        if outcomes.len() == 0 || self.phase != Phase::Sending {
            self
        } else {
            self.sent(outcomes[0]).slept().run(outcomes.drop_first())
        }
    }
}

/// The delivery of one notification.
#[derive(Debug)]
pub struct WebhookDelivery {
    attempts: u8,
    phase: Phase,
}

impl View for WebhookDelivery {
    type V = DeliveryView;

    closed spec fn view(&self) -> DeliveryView {
        DeliveryView { attempts: self.attempts as nat, phase: self.phase }
    }
}

impl WebhookDelivery {
    #[verifier::type_invariant]
    spec fn well_formed(self) -> bool {
        self@.wf()
    }

    /// A delivery that has not begun.
    pub fn new() -> (d: WebhookDelivery)
        ensures
            d@ == DeliveryView::fresh(),
    {
        WebhookDelivery { attempts: 0, phase: Phase::Sending }
    }

    /// The number of attempts made so far: never more than three.
    pub fn attempts(&self) -> (n: u8)
        ensures
            n == self@.attempts,
            n <= MAX_ATTEMPTS,
    {
        proof {
            use_type_invariant(self);
        }
        self.attempts
    }

    /// What is to be done next.
    pub fn next(&self) -> (a: Action)
        ensures
            a == self@.next(),
            self@.wf(),
            a == Action::Send ==> self@.attempts < MAX_ATTEMPTS,
    {
        proof {
            use_type_invariant(self);
        }
        match self.phase {
            Phase::Sending => Action::Send,
            Phase::Pausing => Action::Sleep { secs: RETRY_PAUSE_SECS },
            Phase::Finished => Action::Stop,
        }
    }

    /// Records the outcome of an attempt.
    pub fn sent(&mut self, outcome: Outcome)
        ensures
            final(self)@ == old(self)@.sent(outcome),
    {
        proof {
            use_type_invariant(&*self);
        }
        match self.phase {
            Phase::Sending => {
                let phase = match outcome {
                    Outcome::Responded { .. } => Phase::Finished,
                    Outcome::Failed => Phase::Pausing,
                };
                *self = WebhookDelivery { attempts: self.attempts + 1, phase };
            },
            _ => {},
        }
    }

    /// Records that the pause is over.
    pub fn slept(&mut self)
        ensures
            final(self)@ == old(self)@.slept(),
    {
        proof {
            use_type_invariant(&*self);
        }
        match self.phase {
            Phase::Pausing => {
                let phase = if self.attempts < MAX_ATTEMPTS {
                    Phase::Sending
                } else {
                    Phase::Finished
                };
                *self = WebhookDelivery { attempts: self.attempts, phase };
            },
            _ => {},
        }
    }
}

/// Every step keeps a delivery within its bounds.
pub proof fn lemma_delivery_stays_bounded(d: DeliveryView, outcome: Outcome)
    requires
        d.wf(),
    ensures
        d.sent(outcome).wf(),
        d.slept().wf(),
        d.sent(outcome).attempts <= d.attempts + 1,
        d.slept().attempts == d.attempts,
{
}

/// The delivery bound: whatever the store answers, and however often it
/// fails, no more than three attempts are made.
pub proof fn lemma_at_most_three_attempts(d: DeliveryView, outcomes: Seq<Outcome>)
    requires
        d.wf(),
    ensures
        d.run(outcomes).wf(),
        d.run(outcomes).attempts <= MAX_ATTEMPTS,
        d.attempts <= d.run(outcomes).attempts,
    decreases outcomes.len(),
{
    if outcomes.len() != 0 && d.phase == Phase::Sending {
        lemma_delivery_stays_bounded(d, outcomes[0]);
        lemma_delivery_stays_bounded(d.sent(outcomes[0]), outcomes[0]);
        lemma_at_most_three_attempts(d.sent(outcomes[0]).slept(), outcomes.drop_first());
    }
}

/// A store that never answers is tried three times and then given up.
pub proof fn lemma_failing_store_is_abandoned(outcomes: Seq<Outcome>)
    requires
        outcomes.len() >= MAX_ATTEMPTS,
        forall|i: int| 0 <= i < outcomes.len() ==> outcomes[i] == Outcome::Failed,
    ensures
        DeliveryView::fresh().run(outcomes) == (DeliveryView {
            attempts: MAX_ATTEMPTS as nat,
            phase: Phase::Finished,
        }),
{
    let d0 = DeliveryView::fresh();
    let d1 = d0.sent(outcomes[0]).slept();
    let o1 = outcomes.drop_first();
    let d2 = d1.sent(o1[0]).slept();
    let o2 = o1.drop_first();
    let d3 = d2.sent(o2[0]).slept();
    let o3 = o2.drop_first();
    assert(o1[0] == outcomes[1]);
    assert(o2[0] == o1[1]);
    assert(d3.phase == Phase::Finished);
    assert(d3.run(o3) == d3);
    assert(d2.run(o2) == d3);
    assert(d1.run(o1) == d3);
    assert(d0.run(outcomes) == d3);
}

} // verus!
