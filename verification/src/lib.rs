//! A verified codec for the DNS wire format: a fixed-capacity packet buffer,
//! big-endian primitives, the compressed domain-name encoding, and the
//! header / question / resource-record / message layers on top of them.

pub mod buffer;
pub mod name;
pub mod protocol;
pub mod record;
pub mod packet;
