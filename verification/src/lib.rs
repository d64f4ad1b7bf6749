//! The logic of a remote-desktop host on Windows, apart from the operating
//! system it runs on.
//!
//! The heart of the crate is the life of the service: the registry of
//! interactive sessions ([`session`]), the launch of a process in another
//! session and the classification of its outcome ([`launcher`]), the messages
//! of the local control channel ([`control`]), and the control loop of the
//! service as a state machine ([`service`]) with the properties of its runs
//! ([`service_laws`]). Around it stand the headless side of the login
//! handshake ([`cli`]) and the rules the program follows when it installs
//! itself, reads process lists, fixes cursors and talks to whoever sits at
//! the machine.
//!
//! Nothing here touches the operating system: every function takes what the
//! system answered as plain values and says what is to be done with them.

pub mod cli;
pub mod connectivity;
pub mod control;
pub mod cursor;
pub mod desktop;
pub mod dialog;
pub mod elevation;
pub mod install_options;
pub mod installer;
pub mod keyboard;
pub mod launcher;
pub mod logon;
pub mod power;
pub mod printer;
pub mod process;
pub mod registry;
pub mod sas;
pub mod script;
pub mod service;
pub mod service_laws;
pub mod session;
pub mod session_laws;
pub mod text;
pub mod username;
pub mod wallpaper;
pub mod wide;
pub mod wmic;
