//! Polling state machine for a submitted job.
//!
//! Each poll returns an authoritative snapshot of the job's status; the only
//! state the client keeps between polls is the time at which the job was
//! first seen sitting in a queued state. Two independent clocks bound the
//! wait: an overall timeout on the whole request, and a stuck-pending grace
//! period that restarts whenever the job makes forward progress.

use vstd::prelude::*;
use crate::codec::ProofBundle;
use crate::codec::decode_bundle;
use crate::codec::spec_decode;
use crate::errors::Error;

verus! {

/// The fixed delay between two polls, in time units (seconds).
pub const POLL_INTERVAL: u64 = 2;

/// The generic failure message used when the remote supplies none.
pub const GENERIC_FAILURE_MESSAGE: &'static str = "network job failed";

/// Status of a job as the remote reports it.
#[derive(Clone, Copy, Debug, PartialEq, Eq, Structural)]
pub enum JobStatus {
    Unspecified,
    Pending,
    Running,
    Succeeded,
    Failed,
}

/// The remote's enumeration of job statuses; anything else is a protocol
/// error, never a state.
pub open spec fn spec_job_status_of(code: i32) -> Option<JobStatus> {
    if code == 0 {
        Some(JobStatus::Unspecified)
    } else if code == 1 {
        Some(JobStatus::Pending)
    } else if code == 2 {
        Some(JobStatus::Running)
    } else if code == 3 {
        Some(JobStatus::Succeeded)
    } else if code == 4 {
        Some(JobStatus::Failed)
    } else {
        None
    }
}

/// Decodes a wire status code; out-of-range codes yield nothing.
pub fn job_status_of(code: i32) -> (r: Option<JobStatus>)
    ensures
        r == spec_job_status_of(code),
{
    if code == 0 {
        Some(JobStatus::Unspecified)
    } else if code == 1 {
        Some(JobStatus::Pending)
    } else if code == 2 {
        Some(JobStatus::Running)
    } else if code == 3 {
        Some(JobStatus::Succeeded)
    } else if code == 4 {
        Some(JobStatus::Failed)
    } else {
        None
    }
}

/// One status snapshot as fetched from the remote: the raw status code, the
/// proof payload (meaningful on success), and an optional failure message.
pub struct StatusSnapshot {
    pub code: i32,
    pub proof: Vec<u8>,
    pub error_message: String,
}

/// What one poll step decides.
pub enum PollStep {
    /// Keep polling, carrying the time the job was first seen queued, if it
    /// still is.
    Continue { pending_since: Option<u64> },
    /// Stop: the job ended, a clock ran out, or the remote misbehaved.
    Done(Result<ProofBundle, Error>),
}

/// The overall clock has run out: elapsed time strictly exceeds the bound.
pub open spec fn spec_overall_timed_out(now: u64, timeout: Option<u64>) -> bool {
    match timeout {
        Some(t) => now > t,
        None => false,
    }
}

/// The stuck-pending clock for this observation: the recorded start of the
/// queued stretch, or this very moment if the stretch starts now.
pub open spec fn spec_effective_pending_since(pending_since: Option<u64>, now: u64) -> u64 {
    match pending_since {
        Some(t) => t,
        None => now,
    }
}

/// The stuck-pending clock has run out: the job has sat queued strictly
/// longer than the grace period.
pub open spec fn spec_auction_timed_out(now: u64, pending_since: Option<u64>, auction_timeout: Option<u64>) -> bool {
    match auction_timeout {
        Some(bound) => now - spec_effective_pending_since(pending_since, now) > bound,
        None => false,
    }
}

/// One step of the polling loop, on one fetched snapshot.
///
/// `now` is the time elapsed since submission, measured when the overall
/// clock is checked, before the snapshot is fetched. The verdict is total:
/// the overall clock is consulted first; then a terminal status ends the
/// wait, a running status clears the stuck-pending clock, and a queued
/// status starts or checks it; a status code outside the known enumeration
/// ends the wait with a protocol error.
pub fn poll_step(
    now: u64,
    pending_since: Option<u64>,
    snapshot: &StatusSnapshot,
    timeout: Option<u64>,
    auction_timeout: Option<u64>,
    request_id: &Vec<u8>,
) -> (r: PollStep)
    requires
        pending_since matches Some(t) ==> t <= now,
    ensures
        spec_overall_timed_out(now, timeout) ==> (
            r matches PollStep::Done(res)
            && res matches Err(Error::RequestTimedOut { request_id: rid })
            && rid@ == request_id@
        ),
        !spec_overall_timed_out(now, timeout) ==> match spec_job_status_of(snapshot.code) {
            None => r == PollStep::Done(Result::<ProofBundle, Error>::Err(Error::UnknownJobStatus)),
            Some(JobStatus::Succeeded) => {
                if snapshot.proof@.len() == 0 {
                    r == PollStep::Done(Result::<ProofBundle, Error>::Err(Error::EmptyProof))
                } else {
                    match spec_decode(snapshot.proof@) {
                        None => r == PollStep::Done(Result::<ProofBundle, Error>::Err(Error::Serialization)),
                        Some((proof, public_values, tee)) => (
                            r matches PollStep::Done(res)
                            && res matches Ok(b)
                            && b.proof@ == proof
                            && b.public_values@ == public_values
                            && match (b.tee_proof, tee) {
                                (None, None) => true,
                                (Some(t), Some(ts)) => t@ == ts,
                                _ => false,
                            }
                        ),
                    }
                }
            },
            Some(JobStatus::Failed) => (
                r matches PollStep::Done(res)
                && res matches Err(Error::RemoteJobFailed { message })
                && message@ == (
                    if snapshot.error_message@.len() == 0 {
                        GENERIC_FAILURE_MESSAGE@
                    } else {
                        snapshot.error_message@
                    }
                )
            ),
            Some(JobStatus::Running) => r == (PollStep::Continue { pending_since: None }),
            Some(JobStatus::Pending) | Some(JobStatus::Unspecified) => {
                let since = spec_effective_pending_since(pending_since, now);
                if spec_auction_timed_out(now, pending_since, auction_timeout) {
                    r matches PollStep::Done(res)
                    && res matches Err(Error::RequestAuctionTimedOut { request_id: rid })
                    && rid@ == request_id@
                } else {
                    r == (PollStep::Continue { pending_since: Some(since) })
                }
            },
        },
{
    if let Some(t) = timeout {
        if now > t {
            return PollStep::Done(Err(Error::RequestTimedOut { request_id: copy_bytes(request_id) }));
        }
    }
    match job_status_of(snapshot.code) {
        None => PollStep::Done(Err(Error::UnknownJobStatus)),
        Some(JobStatus::Succeeded) => {
            if snapshot.proof.len() == 0 {
                PollStep::Done(Err(Error::EmptyProof))
            } else {
                PollStep::Done(decode_bundle(snapshot.proof.as_slice()))
            }
        },
        Some(JobStatus::Failed) => {
            let message = if snapshot.error_message.as_str().is_empty() {
                String::from_str(GENERIC_FAILURE_MESSAGE)
            } else {
                snapshot.error_message.clone()
            };
            PollStep::Done(Err(Error::RemoteJobFailed { message }))
        },
        Some(JobStatus::Running) => PollStep::Continue { pending_since: None },
        Some(JobStatus::Pending) | Some(JobStatus::Unspecified) => {
            let since: u64 = match pending_since {
                Some(t) => t,
                None => now,
            };
            let timed_out = match auction_timeout {
                Some(bound) => now - since > bound,
                None => false,
            };
            if timed_out {
                PollStep::Done(Err(Error::RequestAuctionTimedOut { request_id: copy_bytes(request_id) }))
            } else {
                PollStep::Continue { pending_since: Some(since) }
            }
        },
    }
}

/// An element-for-element copy of a byte vector.
pub fn copy_bytes(v: &Vec<u8>) -> (r: Vec<u8>)
    ensures
        r@ == v@,
{
    let mut out: Vec<u8> = Vec::new();
    let n = v.len();
    let mut i: usize = 0;
    while i < n
        invariant
            n == v@.len(),
            i <= n,
            out@ =~= v@.take(i as int),
        decreases n - i,
    {
        out.push(v[i]);
        i = i + 1;
    }
    assert(out@ =~= v@);
    out
}

/// A queued observation made the moment the stuck-pending clock starts (or
/// restarts, after forward progress cleared it) never trips the grace
/// period: the full grace period is granted anew.
pub proof fn lemma_fresh_pending_gets_full_grace(now: u64, auction_timeout: Option<u64>)
    ensures
        !spec_auction_timed_out(now, None, auction_timeout),
        !spec_auction_timed_out(now, Some(now), auction_timeout),
{
}

/// The stuck-pending clock trips exactly when the queued stretch that began
/// at `since` has lasted strictly longer than the configured grace period —
/// independently of the overall clock's bound.
pub proof fn lemma_stuck_pending_is_strict(now: u64, since: u64, bound: u64)
    requires
        since <= now,
    ensures
        spec_auction_timed_out(now, Some(since), Some(bound)) <==> now - since > bound,
{
}

/// The overall clock trips exactly when elapsed time strictly exceeds its
/// bound, and never when no bound was configured.
pub proof fn lemma_overall_timeout_is_strict(now: u64)
    ensures
        forall|t: u64| spec_overall_timed_out(now, Some(t)) <==> now > t,
        !spec_overall_timed_out(now, None),
{
}

/// A status code outside the known enumeration is no state at all — not a
/// terminal one and not one to poll through — so the step on it can only
/// end the wait with a protocol error.
pub proof fn lemma_unknown_code_is_no_state()
    ensures
        forall|code: i32| (code < 0 || code > 4) ==> (#[trigger] spec_job_status_of(code)) is None,
        forall|code: i32| 0 <= code <= 4 ==> (#[trigger] spec_job_status_of(code)) is Some,
{
}

} // verus!
