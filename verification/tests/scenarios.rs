//! End-to-end scenarios over a ring of `u64` records, following the
//! channel laws: suffix delivery, stripe exhaustion, and restart.

use que::headless_spmc::consumer::Consumer;
use que::headless_spmc::producer::Producer;
use que::Channel;

#[test]
fn basic_delivery_then_empty() {
    let mut ch = Channel::new_zeroed(8, 0u64);
    let mut producer = Producer::initialize_in(&mut ch, 8).unwrap();
    let mut consumer = Consumer::join(&mut ch, 8).unwrap();

    producer.push(&mut ch, &69);
    producer.push(&mut ch, &70);
    assert_eq!(consumer.pop(&ch), None);
    producer.sync(&mut ch);
    assert_eq!(consumer.pop(&ch), Some(69));
    assert_eq!(consumer.pop(&ch), Some(70));
    assert_eq!(consumer.pop(&ch), None);
}

#[test]
fn striped_consumers_exhaust_their_stripes() {
    let mut ch = Channel::new_zeroed(4, 0u64);
    let mut producer = Producer::initialize_in(&mut ch, 4).unwrap();
    let mut consumer0 = Consumer::join_multi(&mut ch, 4, 2).unwrap();
    let mut consumer1 = consumer0.next_multi().unwrap();

    for v in 69..=73u64 {
        producer.push(&mut ch, &v);
    }
    producer.sync(&mut ch);

    assert_eq!(consumer0.pop(&ch), Some(71));
    assert_eq!(consumer0.pop(&ch), Some(73));
    assert_eq!(consumer1.pop(&ch), Some(72));

    // All further pops return none: each stripe is exhausted.
    assert_eq!(consumer0.pop(&ch), None);
    assert_eq!(consumer1.pop(&ch), None);
    assert_eq!(consumer0.pop(&ch), None);
}

#[test]
fn restart_preserves_unread_records() {
    let mut ch = Channel::new_zeroed(4, 0u64);
    let mut producer = Producer::initialize_in(&mut ch, 4).unwrap();
    let mut consumer = Consumer::join(&mut ch, 4).unwrap();

    producer.push(&mut ch, &69);
    producer.push(&mut ch, &70);
    producer.sync(&mut ch);
    let published_tail = ch.tail;
    drop(producer);

    let mut producer = Producer::join(&mut ch, 4).unwrap();
    // The new producer adopts the published tail.
    assert_eq!(ch.tail, published_tail);

    assert_eq!(consumer.pop(&ch), Some(69));
    assert_eq!(consumer.pop(&ch), Some(70));
    assert_eq!(consumer.pop(&ch), None);

    producer.push(&mut ch, &71);
    assert_eq!(consumer.pop(&ch), None);
    producer.sync(&mut ch);
    assert_eq!(consumer.pop(&ch), Some(71));
}

#[test]
fn single_consumer_sees_a_suffix_in_order() {
    // Push far past the ring; a late consumer receives a contiguous
    // suffix of the pushed sequence, in pushed order.
    let mut ch = Channel::new_zeroed(8, 0u64);
    let mut producer = Producer::initialize_in(&mut ch, 8).unwrap();
    let mut consumer = Consumer::join(&mut ch, 8).unwrap();

    for v in 0..20u64 {
        producer.push(&mut ch, &v);
    }
    producer.sync(&mut ch);

    let mut delivered = Vec::new();
    while let Some(v) = consumer.pop(&ch) {
        delivered.push(v);
    }
    // The suffix starts at tail - (capacity - burst) = 20 - 6 = 14.
    assert_eq!(delivered, vec![14, 15, 16, 17, 18, 19]);
}
