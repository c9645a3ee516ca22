//! The logic of a terminal file transfer client that can be told apart from its
//! terminal, its files and its network.
//!
//! - [`resolver`] turns the host-like arguments of a command line (bookmark names, SSH
//!   host aliases, addresses, a local directory, passwords) into a connection plan: an
//!   optional bridge host, a target remote and an optional local directory. [`outcome`]
//!   says what that plan is and proves what holds of it.
//! - [`keybinding`] reads and writes key bindings; [`keybindings`] holds the sets they
//!   come in; [`matcher`], [`filetransfer`], [`auth`], [`setup`] and [`footer`] decide
//!   what the screens do about a key.

pub mod args;
pub mod auth;
pub mod error;
pub mod filetransfer;
pub mod footer;
pub mod keybinding;
pub mod keybindings;
pub mod keys;
pub mod matcher;
pub mod outcome;
pub mod params;
pub mod remote;
pub mod resolver;
pub mod setup;
pub mod ssh;
pub mod text;
