//! Host Controller Interface: codes, command parameters, event decoding, and
//! event routing.

pub mod cmd;
pub mod conn;
pub mod consts;
pub mod event;
pub mod params;
pub mod router;
