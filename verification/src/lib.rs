//! The command layer of a point-of-sale terminal that sells and returns
//! transport tickets and drives a printer and a cash register through a local
//! hardware agent.
//!
//! The user interface invokes five commands by name (see [`registry`]). Four of
//! them make one round trip each: two to the remote ticketing service (see
//! [`ticketing`]), two to the agent (see [`printing`]). The fifth opens the
//! customer-facing display (see [`display`]).
//!
//! Nothing in this crate performs I/O. A command is split at the points where
//! the outside world is needed:
//!
//! 1. A `*_request` function says what is to be sent.
//! 2. The shell sends it and reports the [`transport::Delivery`]: no response, or
//!    a response with its status.
//! 3. A `*_response` function decides the [`decoder::Step`]: the command is over,
//!    or one reading of the response body is wanted.
//! 4. The shell makes that reading, and [`decoder::payload_decoded`] or
//!    [`decoder::error_decoded`] turns it into the command's result.
//!
//! Every function is a pure function of its arguments, so commands share no
//! state and may run side by side in any order. What the commands guarantee
//! whatever the services answer is proved in [`laws`].

pub mod decoder;
pub mod display;
pub mod laws;
pub mod model;
pub mod printing;
pub mod registry;
mod text;
pub mod ticketing;
pub mod transport;
