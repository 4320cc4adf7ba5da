//! The command bus: the ordered queue of events that feeds the loop.
//!
//! The queue is tokio's unbounded channel. Both halves of one channel are
//! held together, so every send and every receive goes through the same
//! value and the queue's content can be spoken of.

use vstd::prelude::*;
use tokio::sync::mpsc::{unbounded_channel, UnboundedReceiver, UnboundedSender};
use crate::error::Error;
use crate::event::Event;

verus! {

/// Trusted: the receiving half of tokio's unbounded channel, opaque to the
/// verifier.
#[verifier::external_type_specification]
#[verifier::external_body]
#[verifier::reject_recursive_types(T)]
pub struct ExUnboundedReceiver<T>(UnboundedReceiver<T>);

/// Trusted: the sending half of tokio's unbounded channel, opaque to the
/// verifier.
#[verifier::external_type_specification]
#[verifier::external_body]
#[verifier::reject_recursive_types(T)]
pub struct ExUnboundedSender<T>(UnboundedSender<T>);

/// The messages that were sent on the receiver's channel and not yet
/// received, oldest first.
pub uninterp spec fn channel_queue(rx: UnboundedReceiver<Event>) -> Seq<Event>;

/// Whether the receiver was closed, so that sends on its channel are refused.
pub uninterp spec fn channel_closed(rx: UnboundedReceiver<Event>) -> bool;

/// Whether the two are the halves of one channel.
pub uninterp spec fn same_channel(
    tx: UnboundedSender<Event>,
    rx: UnboundedReceiver<Event>,
) -> bool;

/// Both halves of one unbounded channel of events. The sender is never
/// cloned and neither half leaves the bus, so nothing but the methods of the
/// bus changes the channel.
pub struct CommandBus {
    tx: UnboundedSender<Event>,
    rx: UnboundedReceiver<Event>,
}

impl CommandBus {
    #[verifier::type_invariant]
    spec fn paired(self) -> bool {
        same_channel(self.tx, self.rx)
    }

    /// The queued events, oldest first.
    pub closed spec fn pending(&self) -> Seq<Event> {
        channel_queue(self.rx)
    }

    /// Whether the bus refuses further events.
    pub closed spec fn closed(&self) -> bool {
        channel_closed(self.rx)
    }

    /// Trusted: `tokio::sync::mpsc::unbounded_channel`. The two values that
    /// it returns are the halves of one channel, which holds no message and
    /// is open.
    #[verifier::external_body]
    fn channel() -> (bus: CommandBus)
        ensures
            same_channel(bus.tx, bus.rx),
            channel_queue(bus.rx) == Seq::<Event>::empty(),
            !channel_closed(bus.rx),
    {
        let (tx, rx) = unbounded_channel();
        CommandBus { tx, rx }
    }

    /// Trusted: `UnboundedSender::send`, on the sender of the receiver's own
    /// channel. On an open channel the message is appended behind those
    /// already queued and the call succeeds; on a closed one the call fails
    /// and the queue stays as it is. (The call gives up only when half of
    /// `usize::MAX` messages are queued, which no memory holds.)
    #[verifier::external_body]
    fn push(&mut self, event: Event) -> (sent: bool)
        requires
            same_channel(old(self).tx, old(self).rx),
        ensures
            same_channel(final(self).tx, final(self).rx),
            sent == !channel_closed(old(self).rx),
            channel_closed(final(self).rx) == channel_closed(old(self).rx),
            sent ==> channel_queue(final(self).rx) == channel_queue(old(self).rx).push(event),
            !sent ==> channel_queue(final(self).rx) == channel_queue(old(self).rx),
    {
        self.tx.send(event).is_ok()
    }

    /// Trusted: `UnboundedReceiver::try_recv`. The oldest queued message is
    /// taken out and returned; with nothing queued the call returns an error
    /// (empty or disconnected), which becomes `None`.
    #[verifier::external_body]
    fn pop(&mut self) -> (event: Option<Event>)
        requires
            same_channel(old(self).tx, old(self).rx),
        ensures
            same_channel(final(self).tx, final(self).rx),
            channel_closed(final(self).rx) == channel_closed(old(self).rx),
            channel_queue(old(self).rx).len() == 0 ==> event.is_none() && channel_queue(
                final(self).rx,
            ) == channel_queue(old(self).rx),
            channel_queue(old(self).rx).len() > 0 ==> event == Some(channel_queue(old(self).rx)[0])
                && channel_queue(final(self).rx) == channel_queue(old(self).rx).skip(1),
    {
        self.rx.try_recv().ok()
    }

    /// Trusted: `UnboundedReceiver::close`. Queued messages stay; further
    /// sends are refused.
    #[verifier::external_body]
    fn shut(&mut self)
        requires
            same_channel(old(self).tx, old(self).rx),
        ensures
            same_channel(final(self).tx, final(self).rx),
            channel_closed(final(self).rx),
            channel_queue(final(self).rx) == channel_queue(old(self).rx),
    {
        self.rx.close()
    }

    /// Trusted: `UnboundedReceiver::len`, the number of queued messages.
    #[verifier::external_body]
    fn count(&self) -> (n: usize)
        ensures
            n == channel_queue(self.rx).len(),
    {
        self.rx.len()
    }

    /// A new, open bus with nothing queued.
    pub fn new() -> (bus: CommandBus)
        ensures
            bus.pending() == Seq::<Event>::empty(),
            !bus.closed(),
    {
        CommandBus::channel()
    }

    /// Enqueues an event behind those already queued. Fails with
    /// [`Error::Channel`], and changes nothing, exactly when the bus is
    /// closed.
    pub fn send(&mut self, event: Event) -> (r: Result<(), Error>)
        ensures
            final(self).closed() == old(self).closed(),
            !old(self).closed() ==> r == Ok::<(), Error>(()) && final(self).pending()
                == old(self).pending().push(event),
            old(self).closed() ==> r == Err::<(), Error>(Error::Channel) && final(self).pending()
                == old(self).pending(),
    {
        proof {
            use_type_invariant(&*self);
        }
        if self.push(event) {
            Ok(())
        } else {
            Err(Error::Channel)
        }
    }

    /// Takes the oldest queued event, if there is one. A closed bus can still
    /// be drained.
    pub fn try_recv(&mut self) -> (r: Option<Event>)
        ensures
            final(self).closed() == old(self).closed(),
            old(self).pending().len() == 0 ==> r.is_none() && final(self).pending()
                == old(self).pending(),
            old(self).pending().len() > 0 ==> r == Some(old(self).pending()[0])
                && final(self).pending() == old(self).pending().skip(1),
    {
        proof {
            use_type_invariant(&*self);
        }
        self.pop()
    }

    /// Closes the bus: what is queued stays, later sends fail.
    pub fn close(&mut self)
        ensures
            final(self).closed(),
            final(self).pending() == old(self).pending(),
    {
        proof {
            use_type_invariant(&*self);
        }
        self.shut()
    }

    /// The number of queued events.
    pub fn len(&self) -> (n: usize)
        ensures
            n == self.pending().len(),
    {
        self.count()
    }

    /// Whether nothing is queued.
    pub fn is_empty(&self) -> (r: bool)
        ensures
            r == (self.pending().len() == 0),
    {
        self.count() == 0
    }
}

} // verus!
