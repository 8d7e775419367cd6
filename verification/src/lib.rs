//! A verified core for driving the Windows console.
//!
//! The crate holds every decision of a console binding and makes no system
//! call of its own. An operation on a [`console::WinConsole`] is an exchange
//! of requests and replies: the library says which native function has to be
//! called with which arguments, the caller performs the call and hands the
//! raw result back, and the library says what follows from it. The caller
//! is a loop of a few lines; the rules about handles, redirection, encodings
//! and failures are here, with their contracts.

/// The `WinConsole` endpoint and the operations it offers.
pub mod console;
/// The failures and the violations of an operation.
pub mod error;
/// An operation as an exchange of requests and replies.
pub mod exchange;
/// Includes the basic input structs.
pub mod input;
/// What holds of every exchange.
pub mod laws;
/// The native calls of the console as values.
pub mod native;
/// The specifications of std that are taken on trust.
pub mod std_specs;
/// Includes console related structs as `ConsoleColor`, `CharInfo` or `ConsoleCursorInfo`.
pub mod structs;
/// Text between UTF-16 code units and UTF-8 bytes.
pub mod text;
