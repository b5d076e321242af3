//! Single-instance dispatch for a media player: classification of the
//! arguments, the line protocol spoken over the control channel, the
//! configuration format, the window search and the connect-or-launch
//! decisions. Everything that touches the operating system lives outside
//! this library and hands plain values in.
pub mod classify;
pub mod codec;
pub mod config;
pub mod dispatch;
pub mod launch;
pub mod text;
pub mod window;
