//! A small game-launcher core: a static catalog of known games, filesystem
//! probes that collect installation evidence for several distribution
//! platforms, a reconciler that joins evidence into the catalog, and the
//! decision logic for launching a chosen executable.
//!
//! All filesystem access and process creation happen outside this crate; the
//! functions here work on plain values (directory listings, existing file
//! paths, an existence flag) handed in by the caller.

pub mod catalog;
pub mod evidence;
pub mod game;
pub mod launch;
pub mod probes;
pub mod reconcile;
pub mod register;
pub mod text;
