//! Encryption-at-rest lifecycle of daily journal entries.
//!
//! A live entry is plain text that its author may overwrite all day. Once its
//! active window has elapsed it is sealed under a fresh content key, the content
//! key is wrapped under the master key, and the sealed record replaces the live
//! one. Reading a sealed record unwraps the key and opens the text again.
//!
//! - [`entry`]: the records.
//! - [`cipher`]: sealing and opening one entry.
//! - [`migration`]: the transaction that moves a batch from the live store to
//!   the sealed store, as a transition function for whoever reaches the store.
//! - [`store`]: the two stores in memory, and what a migration makes of them.
//! - [`sweeper`]: the periodic sweep, as a transition function.
//! - [`requests`]: what the request paths decide.
//! - [`cursor`]: the pages of a listing and the cursor between them.
//! - [`zone`] and [`user`]: local days and the expiry of a day's entry.
//! - [`signin`]: the claims of a sign-in.
//! - [`error`]: the failures.

pub mod cipher;
pub mod cursor;
pub mod entry;
pub mod error;
pub mod migration;
pub mod requests;
pub mod signin;
pub mod store;
pub mod sweeper;
pub mod user;
pub mod zone;
