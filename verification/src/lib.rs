//! A registry of trust attestations: an issuer, under a named framework of
//! criteria, asserts a trust score about an asset profile, with optional
//! expiry. Entities live at deterministically derived storage addresses, and
//! every mutation is validated against fixed capacity bounds before it
//! commits.

pub mod addr;
pub mod error;
pub mod laws;
pub mod registry;
pub mod state;
