//! Client-side engine for the binary command/response protocol of an
//! e-ink/LED badge: frame building and validation, the bit-packed packet
//! header, the device-identity hash used by the bind handshake, and the
//! per-exchange response state machines. The wireless transport itself
//! (write/notify) is out of scope and is driven by the surrounding
//! application.

pub mod badge;
pub mod bind;
pub mod command;
pub mod packet;
pub mod session;
pub mod util;
