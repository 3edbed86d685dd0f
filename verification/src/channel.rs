//! One group's broadcast channel: the handle that connections publish
//! through and the subscription that a connection reads from.

use vstd::prelude::*;
use tokio::sync::broadcast::{Receiver, Sender};

verus! {

/// The sending half of a tokio broadcast channel; opaque to the verifier.
#[verifier::external_type_specification]
#[verifier::external_body]
#[verifier::reject_recursive_types(T)]
pub struct ExBroadcastSender<T>(Sender<T>);

/// The receiving half of a tokio broadcast channel; opaque to the verifier.
#[verifier::external_type_specification]
#[verifier::external_body]
#[verifier::reject_recursive_types(T)]
pub struct ExBroadcastReceiver<T>(Receiver<T>);

/// Number of messages a group channel is asked to retain for slow
/// subscribers. The channel keeps at least that many (tokio rounds the
/// number up to a power of two); a subscriber that falls further behind
/// than the channel keeps misses the oldest ones.
pub const CHANNEL_CAPACITY: usize = 100;

/// The number of messages that the channel behind a sender was asked to
/// retain: the capacity that was asked for when the channel was opened.
/// It is fixed for the life of the channel and the same for every sender
/// of it. (The buffer that tokio allocates is that number rounded up to a
/// power of two; the name is the number asked for.)
pub uninterp spec fn channel_capacity(sender: Sender<String>) -> usize;

/// Which channel a sender sends to. Two senders of one channel have the
/// same, as tokio tells by the state that they share; a copy of a sender
/// is a sender of the same channel.
pub uninterp spec fn channel_id(sender: Sender<String>) -> int;

/// Which channel a receiver listens to: that of the sender it was
/// subscribed through.
pub uninterp spec fn receiver_channel_id(receiver: Receiver<String>) -> int;

/// `tokio::sync::broadcast::channel`, keeping the sending half only: the
/// receiver that comes with it is dropped at once, so the channel starts
/// without a subscriber. The channel is made with the capacity given.
/// The call panics on a capacity of zero or above `usize::MAX / 2`, which
/// the precondition leaves out.
#[verifier::external_body]
fn open_channel(capacity: usize) -> (sender: Sender<String>)
    requires
        0 < capacity <= usize::MAX / 2,
    ensures
        channel_capacity(sender) == capacity,
{
    tokio::sync::broadcast::channel(capacity).0
}

/// `Sender::subscribe`: a new receiver that will see the values sent from
/// now on. It listens to the sender's channel: tokio makes it on the state
/// that the sender shares. (tokio panics once a channel has
/// `usize::MAX / 4` receivers, more than a process can hold.)
#[verifier::external_body]
fn channel_subscribe(sender: &Sender<String>) -> (receiver: Receiver<String>)
    ensures
        receiver_channel_id(receiver) == channel_id(*sender),
{
    sender.subscribe()
}

/// `Sender::send`: hands `payload` to every receiver that is subscribed
/// at this moment. tokio answers `Ok` with their number, which is then at
/// least one, and an error when there is none; the error only carries the
/// payload back and is mapped to `None`.
#[verifier::external_body]
fn channel_send(sender: &Sender<String>, payload: String) -> (receivers: Option<usize>)
    ensures
        receivers matches Some(n) ==> n >= 1,
{
    match sender.send(payload) {
        Ok(n) => Some(n),
        Err(_) => None,
    }
}

/// `Sender::receiver_count`: how many receivers are subscribed at this
/// moment. Other tasks subscribe and drop receivers at any time, so two
/// calls may differ and nothing is claimed of the number.
#[verifier::external_body]
fn channel_receiver_count(sender: &Sender<String>) -> (count: usize)
{
    sender.receiver_count()
}

/// A sender for a channel that is asked to retain `CHANNEL_CAPACITY`
/// messages and that nobody has subscribed to yet.
pub(crate) fn fresh_sender() -> (sender: Sender<String>)
    ensures
        channel_capacity(sender) == CHANNEL_CAPACITY,
{
    open_channel(CHANNEL_CAPACITY)
}

/// Whether a channel with `subscribers` subscribers may be torn down.
pub open spec fn idle(subscribers: nat) -> bool {
    subscribers == 0
}

/// Whether a channel with `subscribers` live subscribers may be torn down:
/// only one that nobody listens to.
pub fn is_idle(subscribers: usize) -> (yes: bool)
    ensures
        yes == idle(subscribers as nat),
{
    subscribers == 0
}

/// Looks at a channel on behalf of a cleanup: records in `seen` how many
/// subscribers it has at this moment and says whether that makes it idle.
pub(crate) fn observe_idle(sender: &Sender<String>, seen: &mut Option<usize>) -> (yes: bool)
    ensures
        *final(seen) matches Some(n) && yes == idle(n as nat),
{
    let n = channel_receiver_count(sender);
    *seen = Some(n);
    is_idle(n)
}

/// What became of a published payload.
#[derive(Clone, Copy, Debug, PartialEq, Eq, Structural)]
pub enum Delivery {
    /// The payload was queued for this many subscribers, at least one.
    Queued { receivers: usize },
    /// Nobody was subscribed; the payload is lost.
    Unheard,
}

/// What a publication amounts to when the channel reports `receivers`:
/// the number of subscribers it queued the payload for, or nothing when
/// nobody was subscribed.
pub open spec fn delivery_of(receivers: Option<usize>) -> Delivery {
    match receivers {
        Some(receivers) => Delivery::Queued { receivers },
        None => Delivery::Unheard,
    }
}

impl Delivery {
    /// What a publication amounts to when the channel reports
    /// `receivers`.
    pub fn of_receivers(receivers: Option<usize>) -> (delivery: Delivery)
        ensures
            delivery == delivery_of(receivers),
    {
        match receivers {
            Some(receivers) => Delivery::Queued { receivers },
            None => Delivery::Unheard,
        }
    }
}

/// The publishing side of one group's channel.
pub struct ChannelHandle {
    group_id: u128,
    created: bool,
    sender: Sender<String>,
}

/// One connection's place among a channel's subscribers. Dropping it, or
/// the receiver taken out of it, ends the subscription.
pub struct Subscription {
    group_id: u128,
    receiver: Receiver<String>,
}

/// What is left of a subscription that has ended: the group it was for.
/// Only `Subscription::release` makes one, so whoever holds one holds it
/// after the subscription is gone.
pub struct Released {
    group_id: u128,
}

impl Released {
    /// The group whose channel the subscription listened to.
    pub closed spec fn spec_group_id(&self) -> u128 {
        self.group_id
    }

    /// The group whose channel the subscription listened to.
    #[verifier::when_used_as_spec(spec_group_id)]
    pub fn group_id(&self) -> (id: u128)
        ensures
            id == self.group_id(),
    {
        self.group_id
    }
}

impl ChannelHandle {
    /// The group the channel belongs to.
    pub closed spec fn spec_group_id(&self) -> u128 {
        self.group_id
    }

    /// Whether the call that returned this handle constructed the channel.
    pub closed spec fn spec_created(&self) -> bool {
        self.created
    }

    /// The number of messages the channel was asked to retain for slow
    /// subscribers when it was made.
    pub closed spec fn capacity(&self) -> usize {
        channel_capacity(self.sender)
    }

    /// Which channel the handle publishes to. Handles that the registry
    /// gives out for one channel have the same value here.
    pub closed spec fn channel(&self) -> int {
        channel_id(self.sender)
    }

    /// Wraps a sender as the handle for `group_id`.
    pub(crate) fn new(group_id: u128, created: bool, sender: Sender<String>) -> (handle: ChannelHandle)
        ensures
            handle.group_id() == group_id,
            handle.created() == created,
            handle.capacity() == channel_capacity(sender),
            handle.channel() == channel_id(sender),
    {
        ChannelHandle { group_id, created, sender }
    }

    /// The group the channel belongs to.
    #[verifier::when_used_as_spec(spec_group_id)]
    pub fn group_id(&self) -> (id: u128)
        ensures
            id == self.group_id(),
    {
        self.group_id
    }

    /// Whether the call that returned this handle constructed the channel.
    #[verifier::when_used_as_spec(spec_created)]
    pub fn created(&self) -> (yes: bool)
        ensures
            yes == self.created(),
    {
        self.created
    }

    /// Adds a subscriber to the channel: the subscription listens to the
    /// channel that this handle publishes to. It sees what is published
    /// after this call, never the earlier backlog.
    pub fn subscribe(&self) -> (subscription: Subscription)
        ensures
            subscription.group_id() == self.group_id(),
            subscription.channel() == self.channel(),
    {
        Subscription { group_id: self.group_id, receiver: channel_subscribe(&self.sender) }
    }

    /// Publishes `payload` to the current subscribers without waiting for
    /// any of them. A payload nobody is subscribed for is lost.
    pub fn publish(&self, payload: String) -> (delivery: Delivery)
        ensures
            delivery matches Delivery::Queued { receivers } ==> receivers >= 1,
    {
        Delivery::of_receivers(channel_send(&self.sender, payload))
    }

    /// The number of live subscribers at this moment. Subscribers come
    /// and go on their own, so the next look may give another number.
    pub fn subscriber_count(&self) -> (count: usize)
    {
        channel_receiver_count(&self.sender)
    }
}

impl Subscription {
    /// Ends the subscription: the channel has one subscriber fewer. What
    /// comes back says for which group a subscription has ended, and is
    /// what the registry takes to clean up after it.
    pub fn release(self) -> (released: Released)
        ensures
            released.group_id() == self.group_id(),
    {
        Released { group_id: self.group_id }
    }

    /// The group whose channel this subscription listens to.
    pub closed spec fn spec_group_id(&self) -> u128 {
        self.group_id
    }

    /// The group whose channel this subscription listens to.
    #[verifier::when_used_as_spec(spec_group_id)]
    pub fn group_id(&self) -> (id: u128)
        ensures
            id == self.group_id(),
    {
        self.group_id
    }

    /// The receiving end that this subscription holds.
    pub closed spec fn deliveries(&self) -> Receiver<String> {
        self.receiver
    }

    /// Which channel the subscription listens to.
    pub closed spec fn channel(&self) -> int {
        receiver_channel_id(self.receiver)
    }

    /// The receiver to await deliveries on, for as long as the
    /// subscription is borrowed: the subscription's own receiving end,
    /// handed out in place. What the borrower makes of it is what the
    /// subscription holds afterwards, and the group stays the same.
    pub fn receiver(&mut self) -> (receiver: &mut Receiver<String>)
        ensures
            *receiver == old(self).deliveries(),
            final(self).deliveries() == *final(receiver),
            final(self).group_id() == old(self).group_id(),
    {
        &mut self.receiver
    }
}

} // verus!
