//! The contract's entry points as decisions over plain values: each takes the stored records, the
//! sender and funds of the message, and what the chain reported about the scope concerned, and
//! gives the new records and the response or the refusal.

pub mod context;
pub mod queries;
pub mod gateway;
pub mod msg;
pub mod validation;
pub mod onboard;
pub mod verify;
pub mod access_update;
pub mod definitions;
pub mod lifecycle;
pub mod dispatch;
