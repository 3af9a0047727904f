//! Transport layer of a Raft cluster: how a member reaches a peer, in the same
//! process or over HTTP, and what the caller is told when that fails.
//!
//! The library decides and the runtime acts. For each of the three Raft calls
//! the library says what is to be done (`proximity::Outbound`): hand the
//! message to the consensus engine of this process, or post its wire form to
//! the peer's endpoint. The runtime does that without blocking the caller, and
//! comes back with what happened (`proximity::Arrival`). The library then says
//! what the caller is told and what is logged (`proximity::Completion`). It
//! never retries, and no reply makes it fail: every reply has an outcome.
//!
//! - `messages`: the three calls as the consensus engine makes and answers
//!   them.
//! - `entities`: the same calls as they travel between members, and the
//!   mapping between the two forms.
//! - `route`: the endpoint of each call.
//! - `fault`, `error`: what can go wrong, how it is classified, and what is
//!   logged for it.
//! - `proximity`: a member here or away, and the two halves of a call to it.
//! - `dispatch`, `call`: the course of a call from its start to its end, and
//!   what holds of it whatever happens on the way.
//! - `topology`: the members that can be reached.

pub mod call;
pub mod dispatch;
pub mod entities;
pub mod error;
pub mod fault;
pub mod messages;
pub mod proximity;
pub mod route;
pub mod topology;
