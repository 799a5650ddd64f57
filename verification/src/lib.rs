//! A minimal HTTP service core: three GET routes (a health probe, a database
//! version lookup, a relay of one external JSON endpoint), with the
//! request-scoped resource decisions and the error classification verified.
//!
//! The modules hold the pure decision pipeline: an embedding runtime performs
//! the actual I/O (accepting requests, leasing a database connection, running
//! the query, fetching the external body) and feeds each outcome back in as a
//! plain value.

pub mod dispatch;
pub mod errors;
pub mod fault;
pub mod handlers;
pub mod jsonbody;
pub mod lease;
pub mod strutil;
pub mod transcode;
