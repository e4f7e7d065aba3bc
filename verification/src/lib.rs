//! A serial-line bridge library: the verified core of an interactive
//! terminal that shuttles bytes between a console operator and a serial
//! device. The device and console I/O themselves live outside; this crate
//! holds the decisions: baud-rate selection, line classification, the
//! render-for-display rule, the supervisor state machine, and a model of
//! the exclusive-access discipline on the shared device handle.

pub mod baud;
pub mod bytes;
pub mod display;
pub mod handle;
pub mod line;
pub mod session;
