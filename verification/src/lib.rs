//! Verified core of a runfiles-driven CLI fixture.
//!
//! The fixture takes one logical runfile path on the command line, asks a
//! resolver for the on-disk location, reads that file, and prints its
//! contents. The decisions and the exact text the process emits are
//! verified here; the ambient work (reading the command line and the
//! environment, resolving, reading the file, writing the streams) is done
//! by the thin binary around this library.

pub mod cli;
pub mod locate;
pub mod model;
pub mod output;
