//! Notifications and their acknowledgement, which is what graceful shutdowns
//! are made of. This is how it works:
//!
//! 1. We create a new [`Notifier`].
//! 2. The [`Notifier`] can give away multiple [`Subscription`] objects.
//! 3. Each [`Subscription`] can receive notifications from the [`Notifier`].
//! 4. Each [`Subscription`] can acknowledge the last notification it received.
//!
//! The owner of the notifier sends a notification and then waits until every
//! subscription that was there at that moment has either acknowledged or
//! gone away. A subscriber looks for a notification only when it has
//! finished what it was doing, so that nothing is cut short: it finishes the
//! current request, then acknowledges and exits.
//!
//! The types of this module keep the books of that protocol. They say who
//! has been notified and who is still to answer; carrying the messages from
//! task to task is the business of the channels that the tasks use.

use vstd::prelude::*;

verus! {

/// Message that can be sent as a notification.
#[derive(Clone, Copy, Debug, PartialEq, Eq, Structural)]
pub enum Notification {
    /// This is used for graceful shutdowns.
    Shutdown,
}

/// The books of a [`Notifier`].
pub struct Ledger {
    /// Subscriptions that exist at the moment.
    pub live: nat,
    /// The notification that was sent, if any.
    pub sent: Option<Notification>,
    /// Number of subscriptions that the notification was sent to.
    pub notified: nat,
    /// Acknowledgements received since the notification was sent.
    pub acknowledged: nat,
    /// Subscriptions that went away without a word since the notification
    /// was sent.
    pub dropped: nat,
}

impl Ledger {
    /// Once a notification is out, every subscription that it was sent to
    /// is either still there, or has acknowledged, or has gone away.
    pub open spec fn well_formed(self) -> bool {
        match self.sent {
            Some(_) => self.live + self.acknowledged + self.dropped == self.notified,
            None => self.notified == 0 && self.acknowledged == 0 && self.dropped == 0,
        }
    }

    /// Nobody is left to wait for: collecting the acknowledgements is over.
    pub open spec fn drained(self) -> bool {
        self.live == 0
    }
}

/// Collecting the acknowledgements of a notification that was sent to `k`
/// subscriptions is over exactly when `k` of them have answered or gone
/// away, and not before.
pub proof fn lemma_drained_exactly_when_all_answered(ledger: Ledger)
    requires
        ledger.well_formed(),
        ledger.sent is Some,
    ensures
        ledger.drained() <==> ledger.acknowledged + ledger.dropped == ledger.notified,
        !ledger.drained() ==> ledger.acknowledged + ledger.dropped < ledger.notified,
{
}

/// Notifier object that can send messages to its subscribers.
#[derive(Debug)]
pub struct Notifier {
    live: usize,
    sent: Option<Notification>,
    notified: usize,
    acknowledged: usize,
    dropped: usize,
}

/// Used by subscribers to obtain a notification from a [`Notifier`] and
/// acknowledge receipt when possible.
#[derive(Debug)]
pub struct Subscription {
    /// Whether the notification has been read.
    received: bool,
}

impl View for Notifier {
    type V = Ledger;

    closed spec fn view(&self) -> Ledger {
        Ledger {
            live: self.live as nat,
            sent: self.sent,
            notified: self.notified as nat,
            acknowledged: self.acknowledged as nat,
            dropped: self.dropped as nat,
        }
    }
}

impl Notifier {
    /// The books are always in order.
    #[verifier::type_invariant]
    spec fn in_order(&self) -> bool {
        self@.well_formed()
    }

    /// Creates a new [`Notifier`] without subscriptions.
    pub fn new() -> (notifier: Self)
        ensures
            notifier@ == (Ledger { live: 0, sent: None, notified: 0, acknowledged: 0, dropped: 0 }),
            notifier@.well_formed(),
    {
        Self { live: 0, sent: None, notified: 0, acknowledged: 0, dropped: 0 }
    }

    /// Number of subscriptions that exist at the moment.
    pub fn subscribers(&self) -> (live: usize)
        ensures
            live == self@.live,
            self@.well_formed(),
    {
        proof {
            use_type_invariant(self);
        }
        self.live
    }

    /// The notification that was sent, if any.
    pub fn notification(&self) -> (sent: Option<Notification>)
        ensures
            sent == self@.sent,
    {
        self.sent
    }

    /// By subscribing to this [`Notifier`] the caller obtains a
    /// [`Subscription`] object that can be used to receive a [`Notification`].
    /// Nobody subscribes once the notification is out.
    pub fn subscribe(&mut self) -> (subscription: Subscription)
        requires
            old(self)@.sent is None,
            old(self)@.live < usize::MAX,
        ensures
            final(self)@ == (Ledger { live: old(self)@.live + 1, ..old(self)@ }),
            final(self)@.well_formed(),
            !subscription.has_received(),
    {
        proof {
            use_type_invariant(&*self);
        }
        *self = Self { live: self.live + 1, ..*self };
        Subscription::new()
    }

    /// Sends a [`Notification`] to all subscribers and tells how many there
    /// are at this moment, be it none. Each of them finds the notification
    /// when it next looks for one.
    pub fn send(&mut self, notification: Notification) -> (receivers: usize)
        requires
            old(self)@.sent is None,
        ensures
            receivers == old(self)@.live,
            final(self)@ == (Ledger {
                sent: Some(notification),
                notified: old(self)@.live,
                ..old(self)@
            }),
            final(self)@.well_formed(),
    {
        proof {
            use_type_invariant(&*self);
        }
        *self = Self { sent: Some(notification), notified: self.live, ..*self };
        self.live
    }

    /// Takes in the acknowledgement of a subscriber, whose subscription ends
    /// with it.
    pub fn acknowledge(&mut self, subscription: Subscription)
        requires
            old(self)@.sent is Some,
            old(self)@.live > 0,
            subscription.has_received(),
        ensures
            final(self)@ == (Ledger {
                live: (old(self)@.live - 1) as nat,
                acknowledged: old(self)@.acknowledged + 1,
                ..old(self)@
            }),
            final(self)@.well_formed(),
    {
        proof {
            use_type_invariant(&*self);
        }
        *self = Self { live: self.live - 1, acknowledged: self.acknowledged + 1, ..*self };
    }

    /// Takes note of a subscription that ends without acknowledgement.
    pub fn forget(&mut self, subscription: Subscription)
        requires
            old(self)@.live > 0,
        ensures
            final(self)@ == (Ledger {
                live: (old(self)@.live - 1) as nat,
                dropped: if old(self)@.sent is Some {
                    old(self)@.dropped + 1
                } else {
                    old(self)@.dropped
                },
                ..old(self)@
            }),
            final(self)@.well_formed(),
    {
        proof {
            use_type_invariant(&*self);
        }
        let dropped = if self.sent.is_some() {
            self.dropped + 1
        } else {
            self.dropped
        };
        *self = Self { live: self.live - 1, dropped, ..*self };
    }

    /// Tells whether the wait for the subscribers to acknowledge the last
    /// sent [`Notification`] is over: if not, returns the number of
    /// subscribers that are still to answer.
    pub fn collect_acknowledgements(&self) -> (pending: Option<usize>)
        requires
            self@.sent is Some,
        ensures
            self@.well_formed(),
            match pending {
                Some(pending) => pending > 0 && pending == self@.live && pending
                    == self@.notified - self@.acknowledged - self@.dropped,
                None => self@.drained() && self@.acknowledged + self@.dropped == self@.notified,
            },
    {
        proof {
            use_type_invariant(self);
        }
        if self.live == 0 {
            None
        } else {
            Some(self.live)
        }
    }
}

impl Subscription {
    /// Whether the notification has been read through this subscription.
    pub closed spec fn has_received(&self) -> bool {
        self.received
    }

    /// Creates a new [`Subscription`] object, which has not read anything.
    pub fn new() -> (subscription: Self)
        ensures
            !subscription.has_received(),
    {
        Self { received: false }
    }

    /// Whether the notification has been read through this subscription.
    pub fn received(&self) -> (received: bool)
        ensures
            received == self.has_received(),
    {
        self.received
    }

    /// Checks if a notification was sent. The notification is read once;
    /// before it is sent and after it has been read there is none.
    pub fn receive_notification(&mut self, notifier: &Notifier) -> (notification: Option<
        Notification,
    >)
        ensures
            notification == if old(self).has_received() {
                None
            } else {
                notifier@.sent
            },
            final(self).has_received() == (old(self).has_received() || notifier@.sent is Some),
    {
        if self.received {
            None
        } else {
            match notifier.sent {
                Some(notification) => {
                    self.received = true;
                    Some(notification)
                },
                None => None,
            }
        }
    }

    /// Acknowledges the notification that was read. The subscription ends
    /// with it.
    pub fn acknowledge_notification(self, notifier: &mut Notifier)
        requires
            old(notifier)@.sent is Some,
            old(notifier)@.live > 0,
            self.has_received(),
        ensures
            final(notifier)@ == (Ledger {
                live: (old(notifier)@.live - 1) as nat,
                acknowledged: old(notifier)@.acknowledged + 1,
                ..old(notifier)@
            }),
            final(notifier)@.well_formed(),
    {
        notifier.acknowledge(self)
    }
}

} // verus!
