//! The lossless (back-pressured) channel: delivery, the `Full` refusal,
//! restart and heartbeat behaviour.
//!
//! The lossless producer publishes its tail every `BURST` successful
//! pushes (`BURST = max(1, capacity / 4)`), so a record becomes visible
//! as soon as a burst completes, without an explicit `sync`; the
//! expectations below follow that cadence.

use que::lossless::consumer::Consumer;
use que::lossless::producer::Producer;
use que::Channel;

fn new_spsc_pair(capacity: usize) -> (Channel<u64>, Producer, Consumer) {
    let mut ch = Channel::new_zeroed(capacity, 0u64);
    let producer = Producer::initialize_in(&mut ch, capacity).unwrap();
    let consumer = Consumer::join(&mut ch, capacity).unwrap();
    (ch, producer, consumer)
}

#[test]
fn mod_test_push_pop_multiple() {
    let (mut ch, mut producer, mut consumer) = new_spsc_pair(8);

    // The burst amount of a ring of 8 is 2: the second push publishes.
    producer.push(&mut ch, &69).unwrap();
    assert_eq!(consumer.pop(&mut ch), None);
    producer.push(&mut ch, &70).unwrap();

    producer.sync(&mut ch);
    assert_eq!(consumer.pop(&mut ch), Some(69));
    assert_eq!(consumer.pop(&mut ch), Some(70));
    assert_eq!(consumer.pop(&mut ch), None);
}

#[test]
fn mod_test_push_pop_overrun() {
    let (mut ch, mut producer, mut consumer) = new_spsc_pair(4);

    assert!(producer.push(&mut ch, &69).is_ok());
    assert!(producer.push(&mut ch, &70).is_ok());
    assert!(producer.push(&mut ch, &71).is_ok());
    assert!(producer.push(&mut ch, &72).is_ok());
    assert!(producer.push(&mut ch, &73).is_err());

    assert_eq!(consumer.pop(&mut ch), Some(69));
    assert_eq!(consumer.pop(&mut ch), Some(70));
    assert_eq!(consumer.pop(&mut ch), Some(71));
}

#[test]
fn mod_test_restart_producer() {
    let mut ch = Channel::new_zeroed(4, 0u64);
    let mut producer = Producer::initialize_in(&mut ch, 4).unwrap();
    let mut consumer = Consumer::join(&mut ch, 4).unwrap();

    producer.push(&mut ch, &69).unwrap();
    producer.push(&mut ch, &70).unwrap();
    producer.sync(&mut ch);
    drop(producer);

    // Restart producer, last values should be kept
    let mut producer = Producer::join(&mut ch, 4).unwrap();

    assert_eq!(consumer.pop(&mut ch), Some(69));
    assert_eq!(consumer.pop(&mut ch), Some(70));

    // The burst amount of a ring of 4 is 1: the push itself publishes.
    producer.push(&mut ch, &71).unwrap();
    assert_eq!(consumer.pop(&mut ch), Some(71));

    producer.sync(&mut ch);
    assert_eq!(consumer.pop(&mut ch), None);
}

#[test]
fn mod_test_detect_offline_consumer() {
    let mut ch = Channel::new_zeroed(4, 0u64);
    let mut producer = Producer::initialize_in(&mut ch, 4).unwrap();
    assert!(!producer.consumer_heartbeat(&ch));

    let consumer = Consumer::join(&mut ch, 4).unwrap();
    consumer.beat(&mut ch);
    assert!(producer.consumer_heartbeat(&ch));

    assert!(!producer.consumer_heartbeat(&ch));
}

#[test]
fn lossless_full_cycle() {
    // Back-pressure: four successful pushes fill the ring, the fifth is
    // refused; after the consumer pops once (publishing its head, since
    // the burst amount of a ring of 4 is 1) the next push succeeds.
    let (mut ch, mut producer, mut consumer) = new_spsc_pair(4);

    assert!(producer.push(&mut ch, &1).is_ok());
    assert!(producer.push(&mut ch, &2).is_ok());
    assert!(producer.push(&mut ch, &3).is_ok());
    assert!(producer.push(&mut ch, &4).is_ok());
    assert_eq!(producer.push(&mut ch, &5), Err(que::error::QueError::Full));

    assert_eq!(consumer.pop(&mut ch), Some(1));
    assert!(producer.push(&mut ch, &5).is_ok());
    assert_eq!(consumer.pop(&mut ch), Some(2));
    assert_eq!(consumer.pop(&mut ch), Some(3));
    assert_eq!(consumer.pop(&mut ch), Some(4));
    assert_eq!(consumer.pop(&mut ch), Some(5));
    assert_eq!(consumer.pop(&mut ch), None);
}
