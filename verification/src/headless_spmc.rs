//! The lossy delivery mode: the producer never blocks and never fails;
//! a consumer that falls more than `capacity - BURST` positions behind is
//! overrun and skips forward to the oldest still-safe position of its
//! stripe.

pub mod consumer;
pub mod producer;
