//! The registry of live group channels: at most one channel per group,
//! opened when the first connection attaches and torn down once nobody is
//! subscribed any more.

use vstd::prelude::*;
use dashmap::DashMap;
use tokio::sync::broadcast::Sender;
use std::collections::hash_map::RandomState;
use crate::machine::{lemma_run_at, run, state_at};
use crate::channel::{
    channel_capacity, channel_id, fresh_sender, idle, is_idle, observe_idle, ChannelHandle,
    Released, Subscription, CHANNEL_CAPACITY,
};

verus! {

/// The concurrent map of the dashmap crate; opaque to the verifier.
#[verifier::external_type_specification]
#[verifier::external_body]
#[verifier::reject_recursive_types(K)]
#[verifier::reject_recursive_types(V)]
#[verifier::reject_recursive_types(S)]
pub struct ExDashMap<K, V, S>(DashMap<K, V, S>);

/// What the map holds: for each group that has an entry, which channel
/// the sender stored under it sends to.
pub uninterp spec fn map_channels(map: DashMap<u128, Sender<String>, RandomState>) -> Map<u128, int>;

/// No group has a channel.
pub open spec fn no_channels() -> Map<u128, int> {
    Map::empty()
}

/// `DashMap::new`: a map that holds nothing.
#[verifier::external_body]
fn map_new() -> (map: DashMap<u128, Sender<String>, RandomState>)
    ensures
        map_channels(map) == no_channels(),
{
    DashMap::new()
}

/// `DashMap::contains_key`: whether the map holds an entry under `key`.
#[verifier::external_body]
fn map_contains(map: &DashMap<u128, Sender<String>, RandomState>, key: u128) -> (found: bool)
    ensures
        found == map_channels(*map).contains_key(key),
{
    map.contains_key(&key)
}

/// `DashMap::get`: a copy of the sender stored under `key`, if there is
/// one; the copy sends to the same channel. The guard that dashmap
/// returns is released before the wrapper returns.
#[verifier::external_body]
fn map_get(map: &DashMap<u128, Sender<String>, RandomState>, key: u128) -> (found: Option<Sender<String>>)
    ensures
        found is Some <==> map_channels(*map).contains_key(key),
        found matches Some(sender) ==> channel_id(sender) == map_channels(*map)[key],
{
    map.get(&key).map(|entry| entry.value().clone())
}

/// `DashMap::entry` followed by `Entry::or_insert_with`: where the map
/// holds nothing under `key`, a sender made by `fresh_sender` is stored
/// there; an entry that exists is left alone, and so is every other
/// entry. Either way a copy of the sender now stored under `key` comes
/// back, which sends to the same channel: where the entry is new, the
/// channel that `fresh_sender` has just made, with that channel's
/// capacity. The map is borrowed exclusively, so nothing else changes it
/// between the call and the return.
#[verifier::external_body]
fn map_get_or_open(map: &mut DashMap<u128, Sender<String>, RandomState>, key: u128) -> (sender: Sender<String>)
    ensures
        map_channels(*final(map)) == (if map_channels(*old(map)).contains_key(key) {
            map_channels(*old(map))
        } else {
            map_channels(*old(map)).insert(key, channel_id(sender))
        }),
        map_channels(*final(map)).contains_key(key),
        channel_id(sender) == map_channels(*final(map))[key],
        !map_channels(*old(map)).contains_key(key) ==> channel_capacity(sender)
            == CHANNEL_CAPACITY,
{
    map.entry(key).or_insert_with(fresh_sender).clone()
}

/// `DashMap::remove_if`: where the map holds an entry under `key`, dashmap
/// shows it to the closure while it holds the entry's lock and removes it
/// if the closure says so; no other entry is touched. The closure is
/// `observe_idle`, which notes the number of subscribers it saw; that
/// number comes back, `None` when there was no entry and the closure
/// never ran. The map is borrowed exclusively, so nothing else changes it
/// between the call and the return.
#[verifier::external_body]
fn map_remove_if_idle(map: &mut DashMap<u128, Sender<String>, RandomState>, key: u128) -> (seen: Option<usize>)
    ensures
        seen is Some <==> map_channels(*old(map)).contains_key(key),
        map_channels(*final(map)) == (if seen matches Some(n) && idle(n as nat) {
            map_channels(*old(map)).remove(key)
        } else {
            map_channels(*old(map))
        }),
{
    let mut seen: Option<usize> = None;
    map.remove_if(&key, |_, sender| observe_idle(sender, &mut seen));
    seen
}

/// Into how many parts a service may split its registry, each part a
/// registry of its own behind a lock of its own, so that attaching to one
/// group never waits for another group in another part.
pub const REGISTRY_SHARDS: usize = 16;

/// The part of a split registry that holds a group's channel.
pub open spec fn shard(group_id: u128) -> int {
    group_id as int % REGISTRY_SHARDS as int
}

/// The part of a split registry that holds a group's channel: always the
/// same part for the same group, and one of the `REGISTRY_SHARDS`.
pub fn shard_of(group_id: u128) -> (part: usize)
    ensures
        part == shard(group_id),
        part < REGISTRY_SHARDS,
{
    (group_id % (REGISTRY_SHARDS as u128)) as usize
}

/// What a cleanup found and did.
#[derive(Clone, Copy, Debug, PartialEq, Eq, Structural)]
pub enum Cleanup {
    /// The registry held no channel for the group; nothing changed.
    NotRegistered,
    /// The channel had this many subscribers, at least one, and stays.
    Kept { subscribers: usize },
    /// The channel had no subscriber and was removed.
    Removed,
}

/// The groups that have a channel after `get_or_create(group_id)`.
pub open spec fn after_get_or_create(groups: Set<u128>, group_id: u128) -> Set<u128> {
    groups.insert(group_id)
}

/// Whether `get_or_create(group_id)` has to construct a channel.
pub open spec fn constructs(groups: Set<u128>, group_id: u128) -> bool {
    !groups.contains(group_id)
}

/// The channel of each group after `get_or_create(group_id)`, where `made`
/// is the channel that the call makes if the group has none: a group that
/// has a channel keeps it, and no other group is touched.
pub open spec fn channels_after_get_or_create(channels: Map<u128, int>, group_id: u128, made: int) -> Map<
    u128,
    int,
> {
    if channels.contains_key(group_id) {
        channels
    } else {
        channels.insert(group_id, made)
    }
}

/// The channel of each group after a cleanup of `group_id` that observed
/// `subscribers` subscribers: every other group keeps its channel.
pub open spec fn channels_after_cleanup(channels: Map<u128, int>, group_id: u128, subscribers: usize) -> Map<
    u128,
    int,
> {
    if idle(subscribers as nat) {
        channels.remove(group_id)
    } else {
        channels
    }
}

/// What a cleanup of `group_id` reports when it observes `subscribers`
/// subscribers on the group's channel, if there is one.
pub open spec fn cleanup_outcome(groups: Set<u128>, group_id: u128, subscribers: usize) -> Cleanup {
    if !groups.contains(group_id) {
        Cleanup::NotRegistered
    } else if idle(subscribers as nat) {
        Cleanup::Removed
    } else {
        Cleanup::Kept { subscribers }
    }
}

/// The groups that have a channel after a cleanup of `group_id` that
/// observed `subscribers` subscribers.
pub open spec fn after_cleanup(groups: Set<u128>, group_id: u128, subscribers: usize) -> Set<u128> {
    if idle(subscribers as nat) {
        groups.remove(group_id)
    } else {
        groups
    }
}

impl Cleanup {
    /// The number of subscribers the cleanup observed; zero where there
    /// was no channel to look at.
    pub open spec fn observed(self) -> usize {
        match self {
            Cleanup::Kept { subscribers } => subscribers,
            _ => 0,
        }
    }

    /// What a cleanup that saw `seen` reports: `None` stands for a group
    /// without a channel, a number for the subscribers of its channel.
    pub open spec fn of_observation(seen: Option<usize>) -> Cleanup {
        match seen {
            None => Cleanup::NotRegistered,
            Some(subscribers) => if idle(subscribers as nat) {
                Cleanup::Removed
            } else {
                Cleanup::Kept { subscribers }
            },
        }
    }

    /// Reports on a cleanup that saw `seen`.
    pub fn from_observation(seen: Option<usize>) -> (outcome: Cleanup)
        ensures
            outcome == Cleanup::of_observation(seen),
    {
        match seen {
            None => Cleanup::NotRegistered,
            Some(subscribers) => if is_idle(subscribers) {
                Cleanup::Removed
            } else {
                Cleanup::Kept { subscribers }
            },
        }
    }
}

/// The number of subscribers to report for a group when a look at the
/// registry saw `seen`: `None` stands for a group without a channel, which
/// has no subscriber; a number is what the group's channel counted.
pub open spec fn subscribers_reported(seen: Option<usize>) -> usize {
    match seen {
        Some(subscribers) => subscribers,
        None => 0,
    }
}

/// The number of subscribers to report for a group when a look at the
/// registry saw `seen`.
pub fn report_subscribers(seen: Option<usize>) -> (count: usize)
    ensures
        count == subscribers_reported(seen),
{
    match seen {
        Some(subscribers) => subscribers,
        None => 0,
    }
}

/// How many channels for `group_id` are constructed while the calls
/// `get_or_create(calls[0])`, `get_or_create(calls[1])`, ... run one after
/// the other on a registry that starts with `groups`.
pub open spec fn constructions(groups: Set<u128>, calls: Seq<u128>, group_id: u128) -> nat
    decreases calls.len(),
{
    if calls.len() == 0 {
        0
    } else {
        let here: nat = if calls[0] == group_id && constructs(groups, calls[0]) {
            1
        } else {
            0
        };
        here + constructions(after_get_or_create(groups, calls[0]), calls.drop_first(), group_id)
    }
}

/// The groups that have a channel after the calls `get_or_create(calls[0])`,
/// `get_or_create(calls[1])`, ... on a registry that starts with `groups`.
pub open spec fn after_calls(groups: Set<u128>, calls: Seq<u128>) -> Set<u128>
    decreases calls.len(),
{
    if calls.len() == 0 {
        groups
    } else {
        after_calls(after_get_or_create(groups, calls[0]), calls.drop_first())
    }
}

/// A sequence holds `g` if `g` is its first element or its rest holds it.
proof fn lemma_contains_first_or_rest(calls: Seq<u128>, g: u128)
    requires
        calls.len() > 0,
    ensures
        calls.contains(g) <==> (g == calls[0] || calls.drop_first().contains(g)),
{
    let rest = calls.drop_first();
    if rest.contains(g) {
        let i = choose|i: int| 0 <= i < rest.len() && rest[i] == g;
        assert(calls[i + 1] == g);
    }
    if calls.contains(g) && g != calls[0] {
        let i = choose|i: int| 0 <= i < calls.len() && calls[i] == g;
        assert(rest[i - 1] == g);
    }
    if g == calls[0] {
        assert(calls[0] == g);
    }
}

/// After a run of calls a group has a channel if it had one before or was
/// asked for.
proof fn lemma_after_calls_contains(groups: Set<u128>, calls: Seq<u128>, g: u128)
    ensures
        after_calls(groups, calls).contains(g) <==> groups.contains(g) || calls.contains(g),
    decreases calls.len(),
{
    if calls.len() > 0 {
        lemma_contains_first_or_rest(calls, g);
        lemma_after_calls_contains(after_get_or_create(groups, calls[0]), calls.drop_first(), g);
    }
}

/// However many callers ask for a group's channel, and whatever other
/// groups are asked for in between, the channel is constructed exactly
/// once if the group had none and was asked for, and never otherwise;
/// afterwards every group asked for has its channel.
pub proof fn lemma_channel_constructed_once(groups: Set<u128>, calls: Seq<u128>, group_id: u128)
    ensures
        constructions(groups, calls, group_id) == (if !groups.contains(group_id) && calls.contains(
            group_id,
        ) {
            1nat
        } else {
            0nat
        }),
        forall|g: u128|
            #[trigger] after_calls(groups, calls).contains(g) <==> groups.contains(g)
                || calls.contains(g),
    decreases calls.len(),
{
    if calls.len() > 0 {
        lemma_contains_first_or_rest(calls, group_id);
        lemma_channel_constructed_once(
            after_get_or_create(groups, calls[0]),
            calls.drop_first(),
            group_id,
        );
    }
    assert forall|g: u128|
        #[trigger] after_calls(groups, calls).contains(g) <==> groups.contains(g)
            || calls.contains(g) by {
        lemma_after_calls_contains(groups, calls, g);
    }
}

/// One call of `get_or_create` as a step: `call.0` is the group asked for
/// and `call.1` the channel that is made if the group has none; the step
/// gives the channels afterwards and the channel of the handle returned.
pub open spec fn get_or_create_step() -> spec_fn(Map<u128, int>, (u128, int)) -> (Map<u128, int>, int) {
    |channels: Map<u128, int>, call: (u128, int)|
        {
            let after = channels_after_get_or_create(channels, call.0, call.1);
            (after, after[call.0])
        }
}

/// The channels of the handles that a run of calls of `get_or_create`
/// returns, one per call, on a registry that starts with `channels`.
pub open spec fn handles_returned(channels: Map<u128, int>, calls: Seq<(u128, int)>) -> Seq<int> {
    run(get_or_create_step(), channels, calls)
}

/// From the call at position `i` on, the group asked for there has the
/// channel of the handle returned there.
proof fn lemma_channel_kept(channels: Map<u128, int>, calls: Seq<(u128, int)>, i: int, n: int)
    requires
        0 <= i < n <= calls.len(),
    ensures
        state_at(get_or_create_step(), channels, calls, n).contains_key(calls[i].0),
        state_at(get_or_create_step(), channels, calls, n)[calls[i].0] == handles_returned(
            channels,
            calls,
        )[i],
    decreases n - i,
{
    let step = get_or_create_step();
    lemma_run_at(step, channels, calls, i);
    assert(state_at(step, channels, calls, n) == step(
        state_at(step, channels, calls, n - 1),
        calls[n - 1],
    ).0);
    if n > i + 1 {
        lemma_channel_kept(channels, calls, i, n - 1);
    }
}

/// All callers get the same channel: however many callers ask for a
/// group's channel, and whatever other groups are asked for in between,
/// the handles returned for the group are all of one channel. A group
/// that had a channel keeps it: that channel is the one that had been
/// there from the start.
pub proof fn lemma_every_caller_gets_the_same_channel(
    channels: Map<u128, int>,
    calls: Seq<(u128, int)>,
    i: int,
    j: int,
)
    requires
        0 <= i <= j < calls.len(),
        calls[i].0 == calls[j].0,
    ensures
        handles_returned(channels, calls)[i] == handles_returned(channels, calls)[j],
        channels.contains_key(calls[i].0) ==> handles_returned(channels, calls)[i]
            == channels[calls[i].0],
{
    let step = get_or_create_step();
    lemma_run_at(step, channels, calls, i);
    lemma_run_at(step, channels, calls, j);
    if i < j {
        lemma_channel_kept(channels, calls, i, j);
    }
    if channels.contains_key(calls[i].0) {
        lemma_first_channel_kept(channels, calls, calls[i].0, i);
    }
}

/// A group that has a channel at the start has it at every later point.
proof fn lemma_first_channel_kept(channels: Map<u128, int>, calls: Seq<(u128, int)>, group_id: u128, n: int)
    requires
        0 <= n <= calls.len(),
        channels.contains_key(group_id),
    ensures
        state_at(get_or_create_step(), channels, calls, n).contains_key(group_id),
        state_at(get_or_create_step(), channels, calls, n)[group_id] == channels[group_id],
    decreases n,
{
    let step = get_or_create_step();
    if n > 0 {
        lemma_first_channel_kept(channels, calls, group_id, n - 1);
        assert(state_at(step, channels, calls, n) == step(
            state_at(step, channels, calls, n - 1),
            calls[n - 1],
        ).0);
    }
}

/// Cleanup is idempotent and never removes a channel that has a live
/// subscriber: a cleanup that finds no subscriber removes the group's
/// channel; a second cleanup of the group then finds nothing to do,
/// whatever it would observe; and a cleanup that observes a subscriber,
/// be it on a channel that was opened again in the meantime, leaves the
/// registry as it is.
pub proof fn lemma_cleanup_idempotent(groups: Set<u128>, group_id: u128, later: usize)
    ensures
        groups.contains(group_id) ==> cleanup_outcome(groups, group_id, 0) == Cleanup::Removed,
        !after_cleanup(groups, group_id, 0).contains(group_id),
        cleanup_outcome(after_cleanup(groups, group_id, 0), group_id, later)
            == Cleanup::NotRegistered,
        after_cleanup(after_cleanup(groups, group_id, 0), group_id, later) == after_cleanup(
            groups,
            group_id,
            0,
        ),
        later >= 1 ==> after_cleanup(groups, group_id, later) == groups,
        later >= 1 ==> after_cleanup(
            after_get_or_create(after_cleanup(groups, group_id, 0), group_id),
            group_id,
            later,
        ).contains(group_id),
        forall|other: u128|
            other != group_id ==> (after_cleanup(groups, group_id, later).contains(other)
                <==> groups.contains(other)),
{
    let removed = after_cleanup(groups, group_id, 0);
    assert(removed.remove(group_id) =~= removed);
}

/// The process-wide registry of group channels.
pub struct Registry {
    channels: DashMap<u128, Sender<String>, RandomState>,
}

impl Registry {
    /// The channel that each group has at the moment; a group that has
    /// none is no key of the map.
    pub closed spec fn channels(&self) -> Map<u128, int> {
        map_channels(self.channels)
    }

    /// The groups that have a channel at the moment.
    pub open spec fn groups(&self) -> Set<u128> {
        self.channels().dom()
    }

    /// A registry without any channel.
    pub fn new() -> (registry: Registry)
        ensures
            registry.channels() == no_channels(),
            registry.groups() == Set::<u128>::empty(),
    {
        let registry = Registry { channels: map_new() };
        assert(registry.groups() =~= Set::<u128>::empty());
        registry
    }

    /// Whether the group has a channel.
    pub fn contains(&self, group_id: u128) -> (found: bool)
        ensures
            found == self.groups().contains(group_id),
    {
        map_contains(&self.channels, group_id)
    }

    /// The channel of `group_id`, constructed now if the group has none.
    /// No other group is touched, and a channel that exists is never
    /// replaced. A channel that is constructed is asked to retain
    /// `CHANNEL_CAPACITY` messages for slow subscribers.
    pub fn get_or_create(&mut self, group_id: u128) -> (handle: ChannelHandle)
        ensures
            final(self).channels() == channels_after_get_or_create(
                old(self).channels(),
                group_id,
                handle.channel(),
            ),
            final(self).groups() == after_get_or_create(old(self).groups(), group_id),
            handle.group_id() == group_id,
            handle.channel() == final(self).channels()[group_id],
            handle.created() == constructs(old(self).groups(), group_id),
            handle.created() ==> handle.capacity() == CHANNEL_CAPACITY,
    {
        let existed = map_contains(&self.channels, group_id);
        let sender = map_get_or_open(&mut self.channels, group_id);
        assert(self.groups() =~= after_get_or_create(old(self).groups(), group_id));
        ChannelHandle::new(group_id, !existed, sender)
    }

    /// The channel of `group_id` if the group has one. Never constructs.
    pub fn get(&self, group_id: u128) -> (found: Option<ChannelHandle>)
        ensures
            found is Some <==> self.groups().contains(group_id),
            found matches Some(handle) ==> handle.group_id() == group_id && !handle.created()
                && handle.channel() == self.channels()[group_id],
    {
        match map_get(&self.channels, group_id) {
            Some(sender) => Some(ChannelHandle::new(group_id, false, sender)),
            None => None,
        }
    }

    /// The number of live subscribers of the group's channel at this
    /// moment; zero for a group without a channel.
    pub fn subscriber_count(&self, group_id: u128) -> (count: usize)
        ensures
            !self.groups().contains(group_id) ==> count == 0,
    {
        let seen = match map_get(&self.channels, group_id) {
            Some(sender) => Some(ChannelHandle::new(group_id, false, sender).subscriber_count()),
            None => None,
        };
        report_subscribers(seen)
    }

    /// Removes the group's channel if, at the moment it is looked at, it
    /// has no subscriber. The check and the removal are one step on the
    /// map's entry. The outcome carries the number of subscribers seen.
    pub fn remove_if_empty(&mut self, group_id: u128) -> (outcome: Cleanup)
        ensures
            outcome == cleanup_outcome(old(self).groups(), group_id, outcome.observed()),
            final(self).groups() == after_cleanup(old(self).groups(), group_id, outcome.observed()),
            outcome !is NotRegistered ==> final(self).channels() == channels_after_cleanup(
                old(self).channels(),
                group_id,
                outcome.observed(),
            ),
            outcome is NotRegistered ==> final(self).channels() == old(self).channels(),
            outcome matches Cleanup::Kept { subscribers } ==> subscribers >= 1,
    {
        let seen = map_remove_if_idle(&mut self.channels, group_id);
        let outcome = Cleanup::from_observation(seen);
        assert(self.groups() =~= after_cleanup(old(self).groups(), group_id, outcome.observed()));
        outcome
    }

    /// Attaches a connection to the group's channel: the channel is
    /// constructed if the group has none, and the connection becomes one
    /// of its subscribers before anything else can look at the registry.
    /// The handle publishes to, and the subscription listens to, the
    /// channel that the registry holds for the group.
    pub fn attach(&mut self, group_id: u128) -> (attached: (ChannelHandle, Subscription))
        ensures
            final(self).channels() == channels_after_get_or_create(
                old(self).channels(),
                group_id,
                attached.0.channel(),
            ),
            final(self).groups() == after_get_or_create(old(self).groups(), group_id),
            attached.0.group_id() == group_id,
            attached.0.channel() == final(self).channels()[group_id],
            attached.0.created() == constructs(old(self).groups(), group_id),
            attached.0.created() ==> attached.0.capacity() == CHANNEL_CAPACITY,
            attached.1.group_id() == group_id,
            attached.1.channel() == final(self).channels()[group_id],
    {
        let handle = self.get_or_create(group_id);
        let subscription = handle.subscribe();
        (handle, subscription)
    }

    /// Cleans up after a subscription that has ended: removes the
    /// channel of the subscription's group if, at the moment it is looked
    /// at, it has no subscriber. It takes what `Subscription::release`
    /// gave, so it runs after the release and never before it.
    pub fn cleanup_after(&mut self, released: Released) -> (outcome: Cleanup)
        ensures
            outcome == cleanup_outcome(old(self).groups(), released.group_id(), outcome.observed()),
            final(self).groups() == after_cleanup(
                old(self).groups(),
                released.group_id(),
                outcome.observed(),
            ),
            outcome !is NotRegistered ==> final(self).channels() == channels_after_cleanup(
                old(self).channels(),
                released.group_id(),
                outcome.observed(),
            ),
            outcome is NotRegistered ==> final(self).channels() == old(self).channels(),
            outcome matches Cleanup::Kept { subscribers } ==> subscribers >= 1,
    {
        self.remove_if_empty(released.group_id())
    }

    /// Detaches a connection: its subscription is released first, then
    /// the group's channel is removed if that left it without subscribers.
    /// Every other group keeps its channel, and so does this group unless
    /// its channel is removed.
    pub fn detach(&mut self, subscription: Subscription) -> (outcome: Cleanup)
        ensures
            outcome == cleanup_outcome(old(self).groups(), subscription.group_id(), outcome.observed()),
            final(self).groups() == after_cleanup(old(self).groups(), subscription.group_id(), outcome.observed()),
            outcome !is NotRegistered ==> final(self).channels() == channels_after_cleanup(
                old(self).channels(),
                subscription.group_id(),
                outcome.observed(),
            ),
            outcome is NotRegistered ==> final(self).channels() == old(self).channels(),
            outcome matches Cleanup::Kept { subscribers } ==> subscribers >= 1,
    {
        let released = subscription.release();
        self.cleanup_after(released)
    }
}

} // verus!
