//! The lossy (headless) channel: delivery, overrun, striping, restart
//! and heartbeat behaviour, each over a fresh in-memory region.

use que::headless_spmc::consumer::Consumer;
use que::headless_spmc::producer::Producer;
use que::Channel;

fn new_spsc_pair(capacity: usize) -> (Channel<u64>, Producer, Consumer) {
    let mut ch = Channel::new_zeroed(capacity, 0u64);
    let producer = Producer::initialize_in(&mut ch, capacity).unwrap();
    let consumer = Consumer::join(&mut ch, capacity).unwrap();
    (ch, producer, consumer)
}

#[test]
fn test_push_pop_multiple() {
    let (mut ch, mut producer, mut consumer) = new_spsc_pair(8);

    producer.push(&mut ch, &69);
    producer.push(&mut ch, &70);
    assert_eq!(consumer.pop(&ch), None);

    producer.sync(&mut ch);
    assert_eq!(consumer.pop(&ch), Some(69));
    assert_eq!(consumer.pop(&ch), Some(70));
}

#[test]
fn test_push_pop_overrun() {
    let (mut ch, mut producer, mut consumer) = new_spsc_pair(4);

    producer.push(&mut ch, &69);
    producer.push(&mut ch, &70);
    producer.push(&mut ch, &71);
    producer.push(&mut ch, &72);
    producer.push(&mut ch, &73);
    producer.sync(&mut ch);

    // since the burst amount here is 1, we will only read the last 3
    assert_eq!(consumer.pop(&ch), Some(71));
    assert_eq!(consumer.pop(&ch), Some(72));
    assert_eq!(consumer.pop(&ch), Some(73));
}

#[test]
fn test_multi_consumer_sequential_reads() {
    let mut ch = Channel::new_zeroed(4, 0u64);
    let mut producer = Producer::initialize_in(&mut ch, 4).unwrap();
    let mut consumer1 = Consumer::join_multi(&mut ch, 4, 2).unwrap();
    let mut consumer2 = consumer1.next_multi().unwrap();

    producer.push(&mut ch, &69);
    producer.push(&mut ch, &70);
    producer.push(&mut ch, &71);
    producer.push(&mut ch, &72);
    producer.push(&mut ch, &73);
    producer.sync(&mut ch);

    // since the burst amount here is 1, we will only read the last 3
    assert_eq!(consumer1.pop(&ch), Some(71));
    assert_eq!(consumer1.pop(&ch), Some(73));

    assert_eq!(consumer2.pop(&ch), Some(72));
}

#[test]
fn test_multi_consumer_interleave_reads() {
    let mut ch = Channel::new_zeroed(4, 0u64);
    let mut producer = Producer::initialize_in(&mut ch, 4).unwrap();
    let mut consumer1 = Consumer::join_multi(&mut ch, 4, 2).unwrap();
    let mut consumer2 = consumer1.next_multi().unwrap();

    producer.push(&mut ch, &69);
    producer.push(&mut ch, &70);
    producer.push(&mut ch, &71);
    producer.push(&mut ch, &72);
    producer.push(&mut ch, &73);
    producer.sync(&mut ch);

    // since the burst amount here is 1, we will only read the last 3
    assert_eq!(consumer1.pop(&ch), Some(71));
    assert_eq!(consumer2.pop(&ch), Some(72)); // This is consumer 2!
    assert_eq!(consumer1.pop(&ch), Some(73));
}

#[test]
fn test_multi_consumer_uninitialized() {
    let mut ch = Channel::new_zeroed(4, 0u64);
    let mut producer = Producer::initialize_in(&mut ch, 4).unwrap();
    let mut consumer1 = Consumer::join_multi(&mut ch, 4, 2).unwrap();
    let mut consumer2 = consumer1.next_multi().unwrap();

    // Current state
    // tail = 0
    // consumer1 local head = 0
    // consumer2 local head = 1
    //
    // Both consumers should return None

    assert_eq!(consumer1.pop(&ch), None);
    assert_eq!(consumer2.pop(&ch), None);

    producer.push(&mut ch, &5);
    producer.sync(&mut ch);
    assert_eq!(consumer2.pop(&ch), None);
    assert_eq!(consumer1.pop(&ch), Some(5));
    producer.push(&mut ch, &6);
    producer.sync(&mut ch);
    assert_eq!(consumer1.pop(&ch), None);
    assert_eq!(consumer2.pop(&ch), Some(6));
    assert_eq!(consumer2.pop(&ch), None);
}

#[test]
fn test_restart_producer() {
    let mut ch = Channel::new_zeroed(4, 0u64);
    let mut producer = Producer::initialize_in(&mut ch, 4).unwrap();
    let mut consumer = Consumer::join(&mut ch, 4).unwrap();

    producer.push(&mut ch, &69);
    producer.push(&mut ch, &70);
    producer.sync(&mut ch);
    drop(producer);

    // Restart producer, last values should be kept
    let mut producer = Producer::join(&mut ch, 4).unwrap();

    assert_eq!(consumer.pop(&ch), Some(69));

    // No value published until sync
    assert_eq!(consumer.pop(&ch), Some(70));

    // Push
    producer.push(&mut ch, &71);
    assert_eq!(consumer.pop(&ch), None);

    // Publish
    producer.sync(&mut ch);
    assert_eq!(consumer.pop(&ch), Some(71));
}

#[test]
fn test_detect_offline_consumer() {
    let mut ch = Channel::new_zeroed(4, 0u64);
    let mut producer = Producer::initialize_in(&mut ch, 4).unwrap();
    assert!(!producer.consumer_heartbeat(&ch));

    let consumer1 = Consumer::join_multi(&mut ch, 4, 2).unwrap();
    consumer1.beat(&mut ch);
    assert!(producer.consumer_heartbeat(&ch));

    let consumer2 = consumer1.next_multi().unwrap();
    consumer2.beat(&mut ch);
    assert!(producer.consumer_heartbeat(&ch));

    assert!(!producer.consumer_heartbeat(&ch));
}
