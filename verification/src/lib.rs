//! Control plane of a Wi-Fi range extender: session tokens, the guard in
//! front of protected pages, operator credentials, the settings store and
//! the commands that bring the radios in line with the stored settings.

pub mod banner;
pub mod clock;
pub mod command;
pub mod credential;
pub mod guard;
pub mod login;
pub mod reconcile;
pub mod store;
pub mod structs;
pub mod token;
pub mod wireless;
