//! Client side of a length-prefixed, JSON-framed bridge to a message bus.
//!
//! One TCP connection carries many logical exchanges. This crate holds the
//! parts of such a client that can be reasoned about without a socket:
//!
//! * [`wire`]: the frame layout and the facts that make framing reversible;
//! * [`buffer`] and [`json`]: what is taken on trust from the byte-buffer and
//!   JSON crates;
//! * [`request`] and [`response`]: the outbound and inbound messages;
//! * [`codec`]: frames in and out of a growable buffer;
//! * [`routing`] and [`dispatch`]: the table of pending replies and the
//!   connection actor's decisions;
//! * [`client`]: what each caller-facing operation asks of the actor.
//!
//! Every executable function carries a contract over mathematical models of
//! its arguments, and Verus proves the bodies against those contracts.

pub mod buffer;
pub mod client;
pub mod codec;
pub mod dispatch;
pub mod error;
pub mod json;
pub mod protocol;
pub mod request;
pub mod response;
pub mod routing;
pub mod text;
pub mod wire;
