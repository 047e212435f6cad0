//! The operations exposed to callers, one per state-machine transition.

pub mod make;
pub mod cancel;
pub mod take;
pub mod decline;
pub mod settle_bet;
