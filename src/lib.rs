//! Client driver for a wearable tap input device: wire identifiers, the
//! command and event codecs, the notification registry and the session
//! state machine, all free of I/O.

pub mod catalog;
pub mod commands;
pub mod events;
pub mod demux;
pub mod session;
