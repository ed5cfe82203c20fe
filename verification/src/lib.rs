//! A unification layer over heterogeneous smart-light vendor protocols.
//!
//! Discovery gates each vendor integration on a cheap preflight check,
//! probes every enabled vendor independently, and flattens the surviving
//! per-vendor contributions into one aggregate list of light handles.
//! One vendor's total failure never affects another vendor's contribution.

pub mod config;
pub mod discover;
pub mod error;
pub mod integrations;
pub mod lights;
pub mod numeral;
pub mod protocol;
