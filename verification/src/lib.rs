//! Protocol layer for a colour-display BLE accessory.
//!
//! The display takes an image as a sequence of framed packets, each answered
//! by one notification. This crate holds the protocol and nothing of the
//! transport: packet framing with its running checksum ([`packet`],
//! [`command`]), the CRC-guarded frame around an image and its chunks
//! ([`frame`]), the notification decoder ([`notification`]), the image
//! header ([`image`]), the transfer as a state machine that a driver steps
//! ([`send`]) and the text forms used in diagnostics ([`text`]).

pub mod codec;
pub mod command;
pub mod frame;
pub mod image;
pub mod notification;
pub mod packet;
pub mod send;
pub mod text;
