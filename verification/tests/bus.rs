use tokio::sync::broadcast::error::TryRecvError;
use zini::router::{Router, ROUTER_MESSAGE_SIZE};

#[test]
fn fan_out_of_four_lags_by_six_after_ten() {
    let mut router = Router::with_capacity(4).expect("capacity");
    let tx = router.announce::<i32>();
    let mut rx = router.subscribe::<i32>();
    for value in 0..10 {
        tx.send(value).expect("a subscriber listens");
    }
    assert_eq!(rx.try_recv(), Err(TryRecvError::Lagged(6)));
    assert_eq!(rx.try_recv(), Ok(6));
    assert_eq!(rx.try_recv(), Ok(7));
    assert_eq!(rx.try_recv(), Ok(8));
    assert_eq!(rx.try_recv(), Ok(9));
    assert_eq!(rx.try_recv(), Err(TryRecvError::Empty));
}

#[test]
fn fan_out_of_default_size_lags_by_what_was_lost() {
    let mut router = Router::new();
    assert_eq!(router.capacity(), ROUTER_MESSAGE_SIZE);
    assert_eq!(ROUTER_MESSAGE_SIZE, 1024);
    let tx = router.announce::<u64>();
    let mut rx = router.subscribe::<u64>();
    for value in 0..1034u64 {
        tx.send(value).expect("a subscriber listens");
    }
    assert_eq!(rx.try_recv(), Err(TryRecvError::Lagged(10)));
    assert_eq!(rx.try_recv(), Ok(10));
}

#[test]
fn fan_out_within_capacity_loses_nothing() {
    let mut router = Router::with_capacity(8).expect("capacity");
    let tx = router.announce::<u8>();
    let mut rx = router.subscribe::<u8>();
    for value in 0..8u8 {
        tx.send(value).expect("a subscriber listens");
    }
    for value in 0..8u8 {
        assert_eq!(rx.try_recv(), Ok(value));
    }
    assert_eq!(rx.try_recv(), Err(TryRecvError::Empty));
}

#[test]
fn every_subscriber_gets_every_value() {
    let mut router = Router::new();
    let mut first = router.subscribe::<String>();
    let mut second = router.subscribe::<String>();
    let tx = router.announce::<String>();
    assert_eq!(tx.send("task updated".to_string()).ok(), Some(2));
    assert_eq!(first.try_recv(), Ok("task updated".to_string()));
    assert_eq!(second.try_recv(), Ok("task updated".to_string()));
}

#[test]
fn publish_without_subscriber_returns_at_once() {
    let mut router = Router::new();
    let tx = router.announce::<u32>();
    assert!(tx.send(1).is_err());
    let mut rx = router.subscribe::<u32>();
    assert_eq!(tx.send(2).ok(), Some(1));
    assert_eq!(rx.try_recv(), Ok(2));
}

#[test]
fn announce_makes_one_channel_for_each_type() {
    let mut router = Router::new();
    assert_eq!(router.len(), 0);
    let first = router.announce::<u32>();
    assert_eq!(router.len(), 1);
    let second = router.announce::<u32>();
    assert_eq!(router.len(), 1);
    assert!(first.same_channel(&second));
    let other = router.announce::<u64>();
    assert_eq!(router.len(), 2);
    let mut rx = router.subscribe::<u64>();
    assert_eq!(router.len(), 2);
    other.send(9).expect("a subscriber listens");
    assert_eq!(rx.try_recv(), Ok(9));
}

#[test]
fn no_router_for_a_capacity_of_zero() {
    assert!(Router::with_capacity(0).is_none());
    assert!(Router::with_capacity(usize::MAX).is_none());
    assert!(Router::with_capacity(usize::MAX / 8 + 1).is_none());
    let router = Router::with_capacity(1).expect("capacity");
    assert_eq!(router.capacity(), 1);
    assert_eq!(router.len(), 0);
}

#[test]
fn single_consumer_sees_each_item_once_and_in_order() {
    let mut router = Router::new();
    assert!(router.get_address::<u32>().is_none());
    let mut rx = router.create_channel::<u32>();
    assert_eq!(router.len(), 1);
    let tx = router.get_address::<u32>().expect("address").clone();
    for value in [3u32, 1, 2] {
        tx.try_send(value).expect("room");
    }
    let first = rx.try_recv().expect("first");
    let second = rx.try_recv().expect("second");
    let third = rx.try_recv().expect("third");
    assert_eq!((first, second, third), (3, 1, 2));
    assert!(rx.try_recv().is_err());
}

#[test]
fn queue_and_fan_out_of_one_type_live_side_by_side() {
    let mut router = Router::new();
    let _rx = router.create_channel::<u32>();
    let _tx = router.announce::<u32>();
    assert_eq!(router.len(), 2);
    assert!(router.get_address::<u32>().is_some());
    assert!(router.get_address::<u64>().is_none());
}

#[test]
fn fan_out_keeps_at_least_its_capacity() {
    // The channel rounds its capacity up to a power of two, so a bus of
    // five keeps the last eight values.
    let mut router = Router::with_capacity(5).expect("capacity");
    let tx = router.announce::<i32>();
    let mut rx = router.subscribe::<i32>();
    for value in 0..10 {
        tx.send(value).expect("a subscriber listens");
    }
    assert_eq!(rx.try_recv(), Err(TryRecvError::Lagged(2)));
    assert_eq!(rx.try_recv(), Ok(2));
}

#[test]
fn fan_out_bound_holds_for_powers_of_two() {
    for capacity in [1usize, 2, 4, 8, 16, 64] {
        for extra in [1u64, 3, 17] {
            let mut router = Router::with_capacity(capacity).expect("capacity");
            let tx = router.announce::<u64>();
            let mut rx = router.subscribe::<u64>();
            let published = capacity as u64 + extra;
            for value in 0..published {
                tx.send(value).expect("a subscriber listens");
            }
            assert_eq!(rx.try_recv(), Err(TryRecvError::Lagged(extra)));
            assert_eq!(rx.try_recv(), Ok(extra));
        }
    }
}

#[test]
fn second_queue_of_a_type_takes_the_address_over() {
    let mut router = Router::new();
    let mut first = router.create_channel::<u32>();
    let old_address = router.get_address::<u32>().expect("address").clone();
    let mut second = router.create_channel::<u32>();
    assert_eq!(router.len(), 1);
    let new_address = router.get_address::<u32>().expect("address").clone();
    old_address.try_send(1).expect("room");
    new_address.try_send(2).expect("room");
    assert_eq!(first.try_recv().ok(), Some(1));
    assert!(first.try_recv().is_err());
    assert_eq!(second.try_recv().ok(), Some(2));
    assert!(second.try_recv().is_err());
}

#[test]
fn two_reads_never_see_the_same_item() {
    let mut router = Router::with_capacity(16).expect("capacity");
    let mut rx = router.create_channel::<u64>();
    let tx = router.get_address::<u64>().expect("address").clone();
    for value in 0..16u64 {
        tx.try_send(value).expect("room");
    }
    assert!(tx.try_send(16).is_err());
    let mut seen = Vec::new();
    while let Ok(value) = rx.try_recv() {
        assert!(!seen.contains(&value));
        seen.push(value);
    }
    assert_eq!(seen, (0..16u64).collect::<Vec<u64>>());
}
