//! A transport-layer forwarding proxy's engines, as verified state machines:
//! TCP pipes with coordinated shutdown, the UDP exchange cycle with its queue
//! of held datagrams, reply matching across IPv4 and IPv4-mapped IPv6, and the
//! merging of both engines' events. A driver performs the socket I/O that each
//! step asks for and hands back what happened.

pub mod addr;
pub mod endpoints;
mod event;
pub mod tcp;
pub mod text;
pub mod udp;

pub use addr::{IpAddr, SockAddr};
pub use event::{Arrival, Event, EventManager};
