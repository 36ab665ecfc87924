//! Client-side core of a remote proof-generation service: request validation,
//! authenticated submission, status polling under two independent timeout
//! clocks, and verification of hardware-attested integrity proofs.

pub mod errors;
pub mod hexstr;
pub mod codec;
pub mod request;
pub mod status;
pub mod endpoint;
pub mod auth;
pub mod attestation;
pub mod client;
pub mod scaffold;
