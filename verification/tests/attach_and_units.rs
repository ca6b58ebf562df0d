//! Attach-time gating (magic, capacity, corruption), the reserved
//! metadata stripe, and the arithmetic helpers: burst sizing, stripe
//! arithmetic and page-size rounding.

use que::error::{QueError, ShmemError};
use que::headless_spmc::consumer::Consumer;
use que::headless_spmc::producer::Producer;
use que::page_size::{get_upligned_size, PageSize, GIGANTIC_PAGE_BYTES, HUGE_PAGE_BYTES};
use que::ring::{burst_amount, next_modulo};
use que::Channel;

#[test]
fn consumer_before_any_producer_fails_uninitialized() {
    let mut ch = Channel::new_zeroed(8, 0u64);
    assert_eq!(Consumer::join(&mut ch, 8).unwrap_err(), QueError::Uninitialized);
    assert_eq!(
        Consumer::join_multi(&mut ch, 8, 2).unwrap_err(),
        QueError::Uninitialized
    );
    assert_eq!(
        que::lossless::consumer::Consumer::join(&mut ch, 8).unwrap_err(),
        QueError::Uninitialized
    );
}

#[test]
fn join_only_producer_before_initialization_fails_uninitialized() {
    let mut ch = Channel::new_zeroed(8, 0u64);
    assert_eq!(Producer::join(&mut ch, 8).unwrap_err(), QueError::Uninitialized);
    assert_eq!(
        que::lossless::producer::Producer::join(&mut ch, 8).unwrap_err(),
        QueError::Uninitialized
    );
}

#[test]
fn capacity_mismatch_fails_with_observed_capacity() {
    let mut ch = Channel::new_zeroed(8, 0u64);
    Producer::initialize_in(&mut ch, 8).unwrap();
    assert_eq!(
        Producer::join(&mut ch, 4).unwrap_err(),
        QueError::IncorrectCapacity(8)
    );
    assert_eq!(
        Producer::initialize_in(&mut ch, 4).unwrap_err(),
        QueError::IncorrectCapacity(8)
    );
    assert_eq!(
        Consumer::join(&mut ch, 16).unwrap_err(),
        QueError::IncorrectCapacity(8)
    );
    assert_eq!(
        que::lossless::consumer::Consumer::join(&mut ch, 4).unwrap_err(),
        QueError::IncorrectCapacity(8)
    );
}

#[test]
fn tampered_magic_fails_with_corruption_detected() {
    let mut ch = Channel::new_zeroed(8, 0u64);
    // The region stands for plain shared memory: model a stray write.
    ch.magic = 0xDEAD_BEEF;
    assert_eq!(
        Producer::initialize_in(&mut ch, 8).unwrap_err(),
        QueError::CorruptionDetected
    );
    assert_eq!(Producer::join(&mut ch, 8).unwrap_err(), QueError::CorruptionDetected);
    assert_eq!(Consumer::join(&mut ch, 8).unwrap_err(), QueError::CorruptionDetected);
    assert_eq!(
        que::lossless::producer::Producer::join(&mut ch, 8).unwrap_err(),
        QueError::CorruptionDetected
    );
}

#[test]
fn initialization_writes_capacity_and_magic() {
    let mut ch = Channel::new_zeroed(8, 0u64);
    assert_eq!(ch.magic, 0);
    Producer::initialize_in(&mut ch, 8).unwrap();
    assert_eq!(ch.magic, que::MAGIC);
    assert_eq!(ch.capacity, 8);
    assert_eq!(ch.tail, 0);
}

#[test]
fn producer_detects_consumer_restart_heartbeat() {
    // A consumer joining through the headless join beats once; the
    // producer sees it exactly once.
    let mut ch = Channel::new_zeroed(4, 0u64);
    let mut producer = Producer::initialize_in(&mut ch, 4).unwrap();
    assert!(!producer.consumer_heartbeat(&ch));
    Consumer::join(&mut ch, 4).unwrap();
    assert!(producer.consumer_heartbeat(&ch));
    assert!(!producer.consumer_heartbeat(&ch));
}

#[test]
fn consumer_sees_producer_heartbeat_once_per_beat() {
    let mut ch = Channel::new_zeroed(4, 0u64);
    let producer = Producer::initialize_in(&mut ch, 4).unwrap();
    let mut consumer = Consumer::join(&mut ch, 4).unwrap();
    assert!(!consumer.producer_heartbeat(&ch));
    producer.beat(&mut ch);
    assert!(consumer.producer_heartbeat(&ch));
    assert!(!consumer.producer_heartbeat(&ch));
    producer.beat(&mut ch);
    producer.beat(&mut ch);
    assert!(consumer.producer_heartbeat(&ch));
    assert!(!consumer.producer_heartbeat(&ch));
}

#[test]
fn heartbeat_wraps_at_word_boundary() {
    let mut ch = Channel::new_zeroed(4, 0u64);
    let mut producer = Producer::initialize_in(&mut ch, 4).unwrap();
    let mut consumer = Consumer::join(&mut ch, 4).unwrap();
    // The shared counters wrap like the machine words they live in; the
    // change is still observed exactly once.
    ch.producer_heartbeat = usize::MAX;
    consumer.producer_heartbeat(&ch);
    producer.beat(&mut ch);
    assert_eq!(ch.producer_heartbeat, 0);
    assert!(consumer.producer_heartbeat(&ch));
    assert!(!consumer.producer_heartbeat(&ch));
}

#[test]
fn metadata_stripe_roundtrip() {
    let mut ch = Channel::new_zeroed(4, 0u64);
    assert_eq!(ch.metadata_read(0), 0);
    ch.metadata_write(0, 0x39);
    ch.metadata_write(111, 0x30);
    assert_eq!(ch.metadata_read(0), 0x39);
    assert_eq!(ch.metadata_read(111), 0x30);
    assert_eq!(ch.metadata_read(1), 0);
}

#[test]
fn next_multi_stops_at_interval() {
    let mut ch = Channel::new_zeroed(4, 0u64);
    Producer::initialize_in(&mut ch, 4).unwrap();
    let c0 = Consumer::join_multi(&mut ch, 4, 2).unwrap();
    let c1 = c0.next_multi().unwrap();
    assert!(c1.next_multi().is_none());
}

#[test]
fn burst_amount_is_quarter_of_capacity_at_least_one() {
    assert_eq!(burst_amount(1), 1);
    assert_eq!(burst_amount(2), 1);
    assert_eq!(burst_amount(4), 1);
    assert_eq!(burst_amount(8), 2);
    assert_eq!(burst_amount(64), 16);
}

#[test]
fn next_modulo_finds_first_position_of_stripe() {
    assert_eq!(next_modulo(5, 0, 2), 6);
    assert_eq!(next_modulo(4, 1, 2), 5);
    assert_eq!(next_modulo(4, 0, 2), 4);
    assert_eq!(next_modulo(7, 0, 1), 7);
    assert_eq!(next_modulo(10, 2, 3), 11);
}

#[test]
fn upligned_size_rounds_to_page_multiples() {
    assert_eq!(get_upligned_size(4096, 0), 0);
    assert_eq!(get_upligned_size(4096, 1), 4096);
    assert_eq!(get_upligned_size(4096, 4096), 4096);
    assert_eq!(get_upligned_size(4096, 4097), 8192);
}

#[test]
fn mem_size_uses_the_pages_own_size() {
    assert_eq!(PageSize::Huge.mem_size(1), HUGE_PAGE_BYTES);
    assert_eq!(PageSize::Huge.mem_size(HUGE_PAGE_BYTES + 1), 2 * HUGE_PAGE_BYTES);
    assert_eq!(PageSize::Gigantic.mem_size(1), GIGANTIC_PAGE_BYTES);

    // The standard page size is whatever the system reports: the result
    // is at least the request and rounding is idempotent.
    let one_page = PageSize::Standard.mem_size(1);
    assert!(one_page >= 1);
    assert_eq!(PageSize::Standard.mem_size(one_page), one_page);
}

#[test]
fn checked_mem_size_reports_oversized_requests() {
    assert_eq!(
        PageSize::Huge.checked_mem_size(8),
        Ok(HUGE_PAGE_BYTES)
    );
    // Rounding i64::MAX up to a huge-page multiple leaves the signed
    // 64-bit range: the request is refused rather than wrapped.
    assert_eq!(
        PageSize::Huge.checked_mem_size(i64::MAX as usize),
        Err(QueError::InvalidSize)
    );
    assert_eq!(
        PageSize::Gigantic.checked_mem_size(i64::MAX as usize),
        Err(QueError::InvalidSize)
    );
}

#[test]
fn page_size_kind_predicates() {
    assert!(PageSize::Huge.is_huge());
    assert!(!PageSize::Huge.is_gigantic());
    assert!(PageSize::Gigantic.is_gigantic());
    assert!(!PageSize::Gigantic.is_huge());
    assert!(!PageSize::Standard.is_huge());
    assert!(!PageSize::Standard.is_gigantic());
}

#[test]
fn shmem_error_wraps_into_que_error() {
    assert_eq!(
        QueError::from(ShmemError::UnlinkError),
        QueError::ShmemError(ShmemError::UnlinkError)
    );
    assert_eq!(
        QueError::from(ShmemError::Errno(12)),
        QueError::ShmemError(ShmemError::Errno(12))
    );
}
