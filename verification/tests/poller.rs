//! The polling state machine: the two timeout clocks, terminal states,
//! unknown status codes, and the proof-payload codec.

use proofnet::codec::ProofBundle;
use proofnet::codec::decode_bundle;
use proofnet::codec::encode_bundle;
use proofnet::errors::Error;
use proofnet::status::GENERIC_FAILURE_MESSAGE;
use proofnet::status::JobStatus;
use proofnet::status::POLL_INTERVAL;
use proofnet::status::PollStep;
use proofnet::status::StatusSnapshot;
use proofnet::status::job_status_of;
use proofnet::status::poll_step;

fn pending() -> StatusSnapshot {
    StatusSnapshot { code: 1, proof: Vec::new(), error_message: String::new() }
}

fn running() -> StatusSnapshot {
    StatusSnapshot { code: 2, proof: Vec::new(), error_message: String::new() }
}

fn succeeded(proof: Vec<u8>) -> StatusSnapshot {
    StatusSnapshot { code: 3, proof, error_message: String::new() }
}

/// Replays a status sequence at the fixed poll interval with a virtual
/// clock; returns what the poller decided, if it decided at all.
fn drive(
    snapshots: &[StatusSnapshot],
    timeout: Option<u64>,
    auction_timeout: Option<u64>,
) -> Option<Result<ProofBundle, Error>> {
    let request_id = vec![0xabu8; 4];
    let mut pending_since: Option<u64> = None;
    let mut now: u64 = 0;
    for snapshot in snapshots {
        match poll_step(now, pending_since, snapshot, timeout, auction_timeout, &request_id) {
            PollStep::Continue { pending_since: next } => {
                pending_since = next;
            }
            PollStep::Done(result) => return Some(result),
        }
        now += POLL_INTERVAL;
    }
    None
}

#[test]
fn status_codes_decode() {
    assert_eq!(job_status_of(0), Some(JobStatus::Unspecified));
    assert_eq!(job_status_of(1), Some(JobStatus::Pending));
    assert_eq!(job_status_of(2), Some(JobStatus::Running));
    assert_eq!(job_status_of(3), Some(JobStatus::Succeeded));
    assert_eq!(job_status_of(4), Some(JobStatus::Failed));
    assert_eq!(job_status_of(5), None);
    assert_eq!(job_status_of(-1), None);
}

#[test]
fn running_resets_pending_clock() {
    let step = poll_step(8, Some(0), &running(), None, None, &vec![1]);
    assert!(matches!(step, PollStep::Continue { pending_since: None }));
}

#[test]
fn pending_clock_reset_prevents_auction_timeout() {
    // Pending, Pending, Running, Pending, Pending at a 2-unit interval with
    // a 3-unit grace period: the clock restarts at Running, so the wait
    // goes on.
    let snapshots = vec![pending(), pending(), running(), pending(), pending()];
    assert!(drive(&snapshots, None, Some(3)).is_none());
}

#[test]
fn uninterrupted_pending_trips_auction_timeout() {
    // Pending four times with the same bound: cumulative pending time
    // exceeds 3 units at the third poll.
    let snapshots = vec![pending(), pending(), pending(), pending()];
    match drive(&snapshots, None, Some(3)) {
        Some(Err(Error::RequestAuctionTimedOut { request_id })) => {
            assert_eq!(request_id, vec![0xabu8; 4]);
        }
        other => panic!("expected the stuck-pending clock to trip, got {:?}", other.is_some()),
    }
}

#[test]
fn overall_timeout_trips_strictly_after_bound() {
    // With a 10-unit bound the poll at elapsed time 10 still goes through;
    // the one at 12 does not.
    let six = vec![pending(), pending(), pending(), pending(), pending(), pending()];
    assert!(drive(&six, Some(10), None).is_none());
    let seven = vec![
        pending(),
        pending(),
        pending(),
        pending(),
        pending(),
        pending(),
        pending(),
    ];
    match drive(&seven, Some(10), None) {
        Some(Err(Error::RequestTimedOut { request_id })) => {
            assert_eq!(request_id, vec![0xabu8; 4]);
        }
        _ => panic!("expected the overall clock to trip"),
    }
}

#[test]
fn overall_timeout_wins_over_status() {
    // Once the overall clock has tripped, even a successful snapshot is
    // not taken.
    let bundle = ProofBundle { proof: vec![1], public_values: vec![2], tee_proof: None };
    let step = poll_step(11, None, &succeeded(encode_bundle(&bundle)), Some(10), None, &vec![7]);
    assert!(matches!(
        step,
        PollStep::Done(Err(Error::RequestTimedOut { .. }))
    ));
}

#[test]
fn success_decodes_encoded_payload() {
    let bundle = ProofBundle {
        proof: vec![9, 9, 9],
        public_values: vec![7, 8],
        tee_proof: None,
    };
    let payload = encode_bundle(&bundle);
    match poll_step(0, None, &succeeded(payload), Some(100), None, &vec![1]) {
        PollStep::Done(Ok(decoded)) => {
            assert_eq!(decoded.proof, vec![9, 9, 9]);
            assert_eq!(decoded.public_values, vec![7, 8]);
            assert!(decoded.tee_proof.is_none());
        }
        _ => panic!("expected the encoded bundle back"),
    }
}

#[test]
fn success_with_empty_payload_is_an_error() {
    match poll_step(0, None, &succeeded(Vec::new()), None, None, &vec![1]) {
        PollStep::Done(Err(Error::EmptyProof)) => {}
        _ => panic!("expected the empty payload to be rejected"),
    }
}

#[test]
fn success_with_malformed_payload_is_an_error() {
    match poll_step(0, None, &succeeded(vec![1, 2, 3]), None, None, &vec![1]) {
        PollStep::Done(Err(Error::Serialization)) => {}
        _ => panic!("expected the malformed payload to be rejected"),
    }
}

#[test]
fn failed_keeps_remote_message() {
    let snapshot = StatusSnapshot {
        code: 4,
        proof: Vec::new(),
        error_message: String::from("out of capacity"),
    };
    match poll_step(0, None, &snapshot, None, None, &vec![1]) {
        PollStep::Done(Err(Error::RemoteJobFailed { message })) => {
            assert_eq!(message, "out of capacity");
        }
        _ => panic!("expected the remote failure to surface"),
    }
}

#[test]
fn failed_without_message_gets_generic_one() {
    let snapshot = StatusSnapshot { code: 4, proof: Vec::new(), error_message: String::new() };
    match poll_step(0, None, &snapshot, None, None, &vec![1]) {
        PollStep::Done(Err(Error::RemoteJobFailed { message })) => {
            assert_eq!(message, GENERIC_FAILURE_MESSAGE);
        }
        _ => panic!("expected the generic failure message"),
    }
}

#[test]
fn unknown_status_code_is_a_protocol_error() {
    for code in [5, 99, -1, i32::MAX] {
        let snapshot = StatusSnapshot { code, proof: Vec::new(), error_message: String::new() };
        match poll_step(0, None, &snapshot, Some(1000), Some(1000), &vec![1]) {
            PollStep::Done(Err(Error::UnknownJobStatus)) => {}
            PollStep::Done(_) => panic!("unknown code must not look like a terminal state"),
            PollStep::Continue { .. } => panic!("unknown code must not be polled through"),
        }
    }
}

#[test]
fn unspecified_counts_as_queued() {
    let snapshot = StatusSnapshot { code: 0, proof: Vec::new(), error_message: String::new() };
    match poll_step(6, None, &snapshot, None, Some(3), &vec![1]) {
        PollStep::Continue { pending_since } => assert_eq!(pending_since, Some(6)),
        _ => panic!("a fresh queued observation keeps polling"),
    }
}

#[test]
fn codec_round_trips_with_attestation() {
    let bundle = ProofBundle {
        proof: vec![1, 2, 3, 4],
        public_values: Vec::new(),
        tee_proof: Some(vec![5, 6]),
    };
    let decoded = decode_bundle(&encode_bundle(&bundle)).unwrap();
    assert_eq!(decoded.proof, vec![1, 2, 3, 4]);
    assert_eq!(decoded.public_values, Vec::<u8>::new());
    assert_eq!(decoded.tee_proof, Some(vec![5, 6]));
}

#[test]
fn codec_layout_is_length_prefixed() {
    let bundle = ProofBundle { proof: vec![0xaa], public_values: vec![0xbb], tee_proof: None };
    let encoded = encode_bundle(&bundle);
    let mut expected = vec![1, 0, 0, 0, 0, 0, 0, 0, 0xaa];
    expected.extend_from_slice(&[1, 0, 0, 0, 0, 0, 0, 0, 0xbb, 0]);
    assert_eq!(encoded, expected);
}

#[test]
fn codec_rejects_trailing_and_truncated_blobs() {
    let bundle = ProofBundle { proof: vec![1], public_values: vec![2], tee_proof: None };
    let mut trailing = encode_bundle(&bundle);
    trailing.push(0);
    assert_eq!(decode_bundle(&trailing), Err(Error::Serialization));
    let encoded = encode_bundle(&bundle);
    assert_eq!(
        decode_bundle(&encoded[..encoded.len() - 1]),
        Err(Error::Serialization)
    );
    assert_eq!(decode_bundle(&[]), Err(Error::Serialization));
}
