//! A safe, verified boundary layer around the LASzip codec engine (the `laz`
//! crate).
//!
//! The codec engine itself does the entropy coding; this crate owns the
//! boundary: result-code mapping, source/destination handling, session
//! lifecycle, and the checks that keep caller mistakes from turning into
//! faults.
#![allow(non_camel_case_types)]

pub mod codes;
pub mod engine;
pub mod mem;
pub mod session;
pub mod source;
pub mod utf8check;





