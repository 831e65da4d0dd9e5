//! Synchronisation of a local document library with remote catalog servers.
//!
//! For each server of the settings the catalog is fetched page by page, one
//! link of each entry is chosen by the order of the preferred media types,
//! and the documents that are not on disk yet are downloaded to the place
//! that the layout gives them.
//!
//! The library decides and computes; it neither talks to the network nor
//! touches the disk. [`engine::Sync`] is the run as a state machine: it is
//! handed what happened and says what to do next. The other modules hold what
//! it is made of:
//!
//! - [`opds`], the catalog as it arrives, and [`classify`], the closed
//!   vocabularies that its raw strings are sorted into;
//! - [`settings`], what the user configured, and [`args`], how a run starts;
//! - [`fetch`], the requests for a catalog and its pages, built on
//!   [`address`], the part of the `url` crate that the library calls;
//! - [`resolve`], the choice of a link and of a place for each entry, built
//!   on [`path`];
//! - [`notify`] and [`record`], what the user and the reader are told;
//! - [`error`], the failures that end a run;
//! - [`text`], strings as sequences of characters;
//! - [`laws`], what holds of every run.

pub mod address;
pub mod args;
pub mod classify;
pub mod engine;
pub mod error;
pub mod fetch;
pub mod laws;
pub mod notify;
pub mod opds;
pub mod path;
pub mod record;
pub mod resolve;
pub mod settings;
pub mod text;

pub use classify::{FileExtension, FileType, LinkType};
pub use notify::print_sync_notification;
pub use resolve::EntryResult;
pub use settings::Settings;
