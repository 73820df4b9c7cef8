//! Notifications of the supplicant: their typed form, who handles them, and
//! the monitor that decodes one invocation.

pub mod event;
pub mod handler;
pub mod monitor;
