//! A pomodoro cycle daemon's core: the phase scheduler, the command protocol
//! spoken over its local socket, the notifier's decisions and the client's
//! time formatting.
pub mod clock;
pub mod text;
pub mod scheduler;
pub mod protocol;
pub mod notifier;
pub mod client;
