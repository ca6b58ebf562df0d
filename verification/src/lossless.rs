//! The back-pressured delivery mode: the consumer publishes its head so
//! the producer can observe occupancy, and a push onto a full ring is
//! refused instead of overwriting unread records.

pub mod consumer;
pub mod producer;
