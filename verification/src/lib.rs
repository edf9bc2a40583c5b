//! Verified core of a serial-link packet reader.
//!
//! A microcontroller writes fixed-size records over a serial line with no
//! hardware framing. This library recovers typed records from each raw read:
//! it classifies a frame by its tag byte, slices the payload up to the
//! terminator byte, decodes text and little-endian integer payloads, and
//! tracks the link's connect/disconnect state machine together with the
//! consumer-side store of decoded packets. All I/O stays outside: callers
//! hand in freshly read byte buffers and receive decoded values back.

pub mod actor;
pub mod data_store;
pub mod data_window;
pub mod decode;
pub mod error_message;
pub mod packet;

