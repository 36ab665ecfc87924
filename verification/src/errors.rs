//! Error taxonomy of the proof-job client.
//!
//! Every failure a caller can observe is one of these variants; validation
//! errors name the offending parameter, and the timeout errors carry the job
//! identifier for diagnostics.

use vstd::prelude::*;

verus! {

/// A deprecated request parameter that must be at its neutral value.
#[derive(Clone, Copy, Debug, PartialEq, Eq, Structural)]
pub enum LegacyField {
    MinAuctionPeriod,
    Whitelist,
    Auctioneer,
    Executor,
    Verifier,
    Treasury,
    MaxPricePerPgu,
    AuctionTimeout,
}

/// Everything that can go wrong between building a proof request and
/// accepting its result.
#[derive(Clone, Debug, PartialEq, Eq)]
pub enum Error {
    /// The request asked for the deprecated auction fulfillment strategy.
    UnsupportedStrategy,
    /// A deprecated auction parameter was set to a non-neutral value.
    UnsupportedParameter(LegacyField),
    /// The request asked for a second attestation round, which the remote
    /// backend never performs.
    UnsupportedFeature,
    /// The private key was not exactly 32 bytes.
    KeyFormat,
    /// The wall clock could not produce a timestamp for the credential.
    ClockUnavailable,
    /// The endpoint address is structurally unusable.
    TransportConfig,
    /// A connection, send or receive failed.
    Transport,
    /// A request or a stored proof could not be encoded or decoded.
    Serialization,
    /// The overall timeout elapsed before the job reached a terminal state.
    RequestTimedOut { request_id: Vec<u8> },
    /// The job sat in a non-progressing queued state longer than the
    /// configured grace period.
    RequestAuctionTimedOut { request_id: Vec<u8> },
    /// The remote reported the job as failed.
    RemoteJobFailed { message: String },
    /// The remote reported success but returned no proof payload.
    EmptyProof,
    /// The remote returned a status code outside the known enumeration.
    UnknownJobStatus,
    /// The attestation signature did not yield a recoverable signer.
    SignatureRecovery,
    /// The recovered attestation signer is not in the allow-list.
    UntrustedSigner { address: Vec<u8> },
    /// An attestation was presented but no trusted signers are configured.
    NoSignersConfigured,
}

} // verus!
