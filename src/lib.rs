//! Decision core of a pseudo-terminal execution relay.
//!
//! The relay runs in the privileged process that launched a command under a
//! monitor process. It waits for the monitor to report the command's wait
//! status, forwards the signals it intercepts to the monitor (dropping those
//! that the command's own job sent), and on termination re-raises a fatal
//! signal against itself before handing the status back.
//!
//! Everything that touches the operating system is an [`relay::Action`] that
//! the caller performs; its outcome comes back as an [`relay::Event`].
pub mod relay;
pub mod session;
pub mod signal;
pub mod status;
