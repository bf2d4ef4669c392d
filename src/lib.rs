//! Periodic order-book snapshots of one trading pair: pacing decisions,
//! decoding of the exchange's responses, and the persisted record.

pub mod json;
pub mod model;
pub mod decode;
pub mod stamp;
pub mod record;
pub mod pacer;
pub mod iteration;
pub mod endpoint;
