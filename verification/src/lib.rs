//! Decoding of captured Ethernet frames down to their TCP or UDP payload,
//! and the report that is shown for each: the endpoints by address and
//! port, and a dump of the payload.
//!
//! [`dispatch::dispatch`] takes one frame and says what is to be shown for
//! it. The byte layouts are read by the packet types of pnet, behind
//! [`wire`]; what is decided and written on top of them is verified.

pub mod dispatch;
pub mod hexdump;
pub mod packets;
pub mod startup;
pub mod text;
pub mod wire;
