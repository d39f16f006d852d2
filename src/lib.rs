//! A logger that turns structured log records into the plain
//! (level, scope, message) triple accepted by a `wasi:logging` sink.
//!
//! The library holds the translation: the severity mapping, the message
//! formatter with its fast and slow paths, and the logger's own decisions
//! (installation outcome, filtering, flushing). Registering with the `log`
//! facade and the call across the component boundary are made by the
//! surrounding program.
pub mod format;
pub mod level;
pub mod logger;
