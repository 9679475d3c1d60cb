//! Verified core of a username-probing engine.
//!
//! Given a site definition (URL template, detection method, error markers)
//! and a username, the library plans an HTTP probe, classifies the response,
//! escalates the probing strategy on repeated failure, and aggregates
//! per-run statistics.  Network transport and console output live outside
//! the library; everything here is pure logic with contracts.

pub mod browser;
pub mod classify;
pub mod cli;
pub mod outcome;
pub mod registry;
pub mod retry;
pub mod sites;
pub mod stats;
pub mod text;
