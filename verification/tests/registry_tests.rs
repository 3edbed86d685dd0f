use ruggine::channel::{is_idle, Delivery, CHANNEL_CAPACITY};
use ruggine::registry::{report_subscribers, shard_of, Cleanup, Registry, REGISTRY_SHARDS};
use tokio::sync::broadcast::error::TryRecvError;

const G: u128 = 0x0000_0000_0000_0000_0000_0000_0000_00a1;
const H: u128 = 0x0000_0000_0000_0000_0000_0000_0000_00b2;

#[test]
fn new_registry_holds_no_group() {
    let registry = Registry::new();
    assert!(!registry.contains(G));
    assert!(registry.get(G).is_none());
    assert_eq!(registry.subscriber_count(G), 0);
}

#[test]
fn get_or_create_constructs_once() {
    let mut registry = Registry::new();
    let first = registry.get_or_create(G);
    assert!(first.created());
    assert_eq!(first.group_id(), G);
    assert!(registry.contains(G));
    let mut constructed = 1;
    for _ in 0..16 {
        let again = registry.get_or_create(G);
        assert_eq!(again.group_id(), G);
        if again.created() {
            constructed += 1;
        }
    }
    assert_eq!(constructed, 1);
}

#[test]
fn every_caller_gets_the_same_channel() {
    let mut registry = Registry::new();
    let first = registry.get_or_create(G);
    let second = registry.get_or_create(G);
    let third = registry.get(G).expect("the group has a channel");
    let mut listener = first.subscribe();
    assert_eq!(second.publish("from second".to_string()), Delivery::Queued { receivers: 1 });
    assert_eq!(third.publish("from third".to_string()), Delivery::Queued { receivers: 1 });
    assert_eq!(listener.receiver().try_recv(), Ok("from second".to_string()));
    assert_eq!(listener.receiver().try_recv(), Ok("from third".to_string()));
    assert_eq!(first.subscriber_count(), 1);
    assert_eq!(second.subscriber_count(), 1);
    assert_eq!(registry.subscriber_count(G), 1);
}

#[test]
fn groups_do_not_share_channels() {
    let mut registry = Registry::new();
    let (g, mut in_g) = registry.attach(G);
    let (h, mut in_h) = registry.attach(H);
    assert!(g.created());
    assert!(h.created());
    assert_eq!(g.publish("for g".to_string()), Delivery::Queued { receivers: 1 });
    assert_eq!(in_g.receiver().try_recv(), Ok("for g".to_string()));
    assert_eq!(in_h.receiver().try_recv(), Err(TryRecvError::Empty));
    assert_eq!(h.publish("for h".to_string()), Delivery::Queued { receivers: 1 });
    assert_eq!(in_h.receiver().try_recv(), Ok("for h".to_string()));
    assert_eq!(in_g.receiver().try_recv(), Err(TryRecvError::Empty));
}

#[test]
fn get_never_creates() {
    let registry = Registry::new();
    assert!(registry.get(G).is_none());
    assert!(!registry.contains(G));
}

#[test]
fn fresh_channel_has_no_subscriber() {
    let mut registry = Registry::new();
    let handle = registry.get_or_create(G);
    assert_eq!(handle.subscriber_count(), 0);
    assert_eq!(handle.publish("lost".to_string()), Delivery::Unheard);
}

#[test]
fn is_idle_only_at_zero() {
    assert!(is_idle(0));
    assert!(!is_idle(1));
    assert!(!is_idle(usize::MAX));
}

#[test]
fn subscription_counts_and_release() {
    let mut registry = Registry::new();
    let handle = registry.get_or_create(G);
    let a = handle.subscribe();
    assert_eq!(a.group_id(), G);
    let b = handle.subscribe();
    assert_eq!(registry.subscriber_count(G), 2);
    a.release();
    assert_eq!(registry.subscriber_count(G), 1);
    b.release();
    assert_eq!(registry.subscriber_count(G), 0);
}

#[test]
fn subscriber_sees_no_earlier_backlog() {
    let mut registry = Registry::new();
    let (handle, mut early) = registry.attach(G);
    assert_eq!(handle.publish("before".to_string()), Delivery::Queued { receivers: 1 });
    let mut late = handle.subscribe();
    assert_eq!(handle.publish("after".to_string()), Delivery::Queued { receivers: 2 });
    assert_eq!(early.receiver().try_recv(), Ok("before".to_string()));
    assert_eq!(early.receiver().try_recv(), Ok("after".to_string()));
    assert_eq!(late.receiver().try_recv(), Ok("after".to_string()));
    assert_eq!(late.receiver().try_recv(), Err(TryRecvError::Empty));
}

#[test]
fn remove_if_empty_removes_idle_channel_once() {
    let mut registry = Registry::new();
    let _handle = registry.get_or_create(G);
    assert_eq!(registry.remove_if_empty(G), Cleanup::Removed);
    assert!(!registry.contains(G));
    assert_eq!(registry.remove_if_empty(G), Cleanup::NotRegistered);
    assert!(!registry.contains(G));
}

#[test]
fn remove_if_empty_keeps_channel_with_subscriber() {
    let mut registry = Registry::new();
    let (_handle, subscription) = registry.attach(G);
    assert_eq!(registry.remove_if_empty(G), Cleanup::Kept { subscribers: 1 });
    assert!(registry.contains(G));
    assert_eq!(registry.remove_if_empty(G), Cleanup::Kept { subscribers: 1 });
    subscription.release();
    assert_eq!(registry.remove_if_empty(G), Cleanup::Removed);
}

#[test]
fn remove_if_empty_spares_repopulated_group() {
    let mut registry = Registry::new();
    let _old = registry.get_or_create(G);
    assert_eq!(registry.remove_if_empty(G), Cleanup::Removed);
    let (_handle, _subscription) = registry.attach(G);
    assert_eq!(registry.remove_if_empty(G), Cleanup::Kept { subscribers: 1 });
    assert!(registry.contains(G));
}

#[test]
fn remove_if_empty_leaves_other_groups() {
    let mut registry = Registry::new();
    let _g = registry.get_or_create(G);
    let _h = registry.get_or_create(H);
    assert_eq!(registry.remove_if_empty(G), Cleanup::Removed);
    assert!(registry.contains(H));
}

#[test]
fn cleanup_report_from_observation() {
    assert_eq!(Cleanup::from_observation(None), Cleanup::NotRegistered);
    assert_eq!(Cleanup::from_observation(Some(0)), Cleanup::Removed);
    assert_eq!(Cleanup::from_observation(Some(1)), Cleanup::Kept { subscribers: 1 });
    assert_eq!(Cleanup::from_observation(Some(7)), Cleanup::Kept { subscribers: 7 });
}

#[test]
fn one_of_two_connections_disconnects() {
    let mut registry = Registry::new();
    let (_handle_a, subscription_a) = registry.attach(G);
    let (handle_b, _subscription_b) = registry.attach(G);
    assert!(!handle_b.created());
    let before = registry.subscriber_count(G);
    assert_eq!(before, 2);
    assert_eq!(registry.detach(subscription_a), Cleanup::Kept { subscribers: 1 });
    assert_eq!(registry.subscriber_count(G), before - 1);
    assert!(registry.contains(G));
}

#[test]
fn last_connection_disconnects() {
    let mut registry = Registry::new();
    let (old_handle, mut subscription) = registry.attach(G);
    assert_eq!(old_handle.publish("old backlog".to_string()), Delivery::Queued { receivers: 1 });
    assert_eq!(subscription.receiver().try_recv(), Ok("old backlog".to_string()));
    assert_eq!(old_handle.publish("unread backlog".to_string()), Delivery::Queued { receivers: 1 });
    assert_eq!(registry.detach(subscription), Cleanup::Removed);
    assert!(!registry.contains(G));
    let (fresh, mut newcomer) = registry.attach(G);
    assert!(fresh.created());
    assert_eq!(newcomer.receiver().try_recv(), Err(TryRecvError::Empty));
    assert_eq!(old_handle.publish("to the old channel".to_string()), Delivery::Unheard);
    assert_eq!(newcomer.receiver().try_recv(), Err(TryRecvError::Empty));
    assert_eq!(fresh.publish("to the new channel".to_string()), Delivery::Queued { receivers: 1 });
    assert_eq!(newcomer.receiver().try_recv(), Ok("to the new channel".to_string()));
}

#[test]
fn cleanup_after_release_finds_the_subscriber_gone() {
    let mut registry = Registry::new();
    let (_handle, subscription) = registry.attach(G);
    let (_other_handle, other) = registry.attach(G);
    let released = subscription.release();
    assert_eq!(released.group_id(), G);
    assert_eq!(registry.subscriber_count(G), 1);
    assert_eq!(registry.cleanup_after(released), Cleanup::Kept { subscribers: 1 });
    let released = other.release();
    assert_eq!(registry.subscriber_count(G), 0);
    assert_eq!(registry.cleanup_after(released), Cleanup::Removed);
    assert!(!registry.contains(G));
}

#[test]
fn detach_of_unregistered_group_changes_nothing() {
    let mut registry = Registry::new();
    let mut other = Registry::new();
    let (_handle, subscription) = other.attach(G);
    assert_eq!(registry.detach(subscription), Cleanup::NotRegistered);
    assert!(!registry.contains(G));
}

#[test]
fn slow_subscriber_misses_oldest_messages() {
    let mut registry = Registry::new();
    let (handle, mut slow) = registry.attach(G);
    let retained = CHANNEL_CAPACITY.next_power_of_two();
    let sent = retained + 5;
    for i in 0..sent {
        assert_eq!(handle.publish(format!("m{}", i)), Delivery::Queued { receivers: 1 });
    }
    assert_eq!(slow.receiver().try_recv(), Err(TryRecvError::Lagged(5)));
    assert_eq!(slow.receiver().try_recv(), Ok("m5".to_string()));
    assert_eq!(registry.subscriber_count(G), 1);
}

#[test]
fn delivery_follows_what_the_channel_reports() {
    assert_eq!(Delivery::of_receivers(None), Delivery::Unheard);
    assert_eq!(Delivery::of_receivers(Some(1)), Delivery::Queued { receivers: 1 });
    assert_eq!(Delivery::of_receivers(Some(42)), Delivery::Queued { receivers: 42 });
}

#[test]
fn reported_subscribers_follow_what_was_seen() {
    assert_eq!(report_subscribers(None), 0);
    assert_eq!(report_subscribers(Some(0)), 0);
    assert_eq!(report_subscribers(Some(3)), 3);
}

#[test]
fn subscriber_count_follows_the_channel() {
    let mut registry = Registry::new();
    let handle = registry.get_or_create(G);
    assert_eq!(registry.subscriber_count(G), 0);
    let first = handle.subscribe();
    assert_eq!((registry.subscriber_count(G), handle.subscriber_count()), (1, 1));
    let second = handle.subscribe();
    let third = handle.subscribe();
    assert_eq!((registry.subscriber_count(G), handle.subscriber_count()), (3, 3));
    assert_eq!(registry.subscriber_count(H), 0);
    drop(second);
    assert_eq!((registry.subscriber_count(G), handle.subscriber_count()), (2, 2));
    first.release();
    third.release();
    assert_eq!((registry.subscriber_count(G), handle.subscriber_count()), (0, 0));
}

#[test]
fn borrowed_receiver_is_the_subscriptions_own() {
    let mut registry = Registry::new();
    let (handle, mut subscription) = registry.attach(G);
    assert_eq!(handle.publish("one".to_string()), Delivery::Queued { receivers: 1 });
    assert_eq!(handle.publish("two".to_string()), Delivery::Queued { receivers: 1 });
    assert_eq!(subscription.receiver().try_recv(), Ok("one".to_string()));
    assert_eq!(subscription.group_id(), G);
    assert_eq!(subscription.receiver().try_recv(), Ok("two".to_string()));
    assert_eq!(subscription.receiver().try_recv(), Err(TryRecvError::Empty));
    assert_eq!(registry.subscriber_count(G), 1);
}

#[test]
fn every_group_has_its_part_of_a_split_registry() {
    assert_eq!(REGISTRY_SHARDS, 16);
    assert_eq!(shard_of(0), 0);
    assert_eq!(shard_of(15), 15);
    assert_eq!(shard_of(16), 0);
    assert_eq!(shard_of(G), 1);
    assert_eq!(shard_of(H), 2);
    assert_eq!(shard_of(u128::MAX), 15);
    assert_eq!(shard_of(G), shard_of(G));
    let mut parts: Vec<Registry> = (0..REGISTRY_SHARDS).map(|_| Registry::new()).collect();
    let (_g, _in_g) = parts[shard_of(G)].attach(G);
    let (_h, in_h) = parts[shard_of(H)].attach(H);
    assert!(parts[shard_of(G)].contains(G));
    assert!(!parts[shard_of(H)].contains(G));
    assert_eq!(parts[shard_of(H)].detach(in_h), Cleanup::Removed);
    assert!(parts[shard_of(G)].contains(G));
}

#[test]
fn channel_capacity_is_one_hundred() {
    assert_eq!(CHANNEL_CAPACITY, 100);
}
