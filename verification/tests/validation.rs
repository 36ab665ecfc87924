//! Request validation, strategy mapping, submission preparation, and
//! client construction.

use proofnet::client::MAINNET_RPC_URL;
use proofnet::client::NetworkMode;
use proofnet::client::NetworkProver;
use proofnet::client::NetworkProverBuilder;
use proofnet::client::RequestProofMessage;
use proofnet::client::prepare_submission;
use proofnet::auth::ClientAuthCredential;
use proofnet::errors::Error;
use proofnet::errors::LegacyField;
use proofnet::request::FulfillmentStrategy;
use proofnet::request::NetworkApiFulfillmentStrategy;
use proofnet::request::NetworkApiProofMode;
use proofnet::request::ProofMode;
use proofnet::request::ProofRequestSpec;
use proofnet::request::network_api_proof_mode;
use proofnet::request::network_api_strategy;
use proofnet::request::proof_mode_code;
use proofnet::request::strategy_code;
use proofnet::request::validate_request;
use proofnet::scaffold::NewCmd;
use proofnet::scaffold::TEMPLATE_REPOSITORY_URL;
use proofnet::scaffold::monerochan_dev_mode;

fn base_spec() -> ProofRequestSpec {
    ProofRequestSpec::new(vec![0x11u8; 32], vec![1, 2, 3], vec![4, 5])
}

/// A transport stub that records every message handed to it; validation
/// failures must leave it untouched.
struct RecordingTransport {
    sent: Vec<RequestProofMessage>,
}

impl RecordingTransport {
    fn submit(&mut self, spec: &ProofRequestSpec) -> Result<(), Error> {
        let message = prepare_submission(spec, None)?;
        self.sent.push(message);
        Ok(())
    }
}

#[test]
fn valid_spec_accepted() {
    assert_eq!(validate_request(&base_spec()), Ok(()));
}

#[test]
fn auction_strategy_rejected_without_send() {
    let mut spec = base_spec();
    spec.strategy = FulfillmentStrategy::Auction;
    let mut transport = RecordingTransport { sent: Vec::new() };
    let result = transport.submit(&spec);
    assert_eq!(result, Err(Error::UnsupportedStrategy));
    assert_eq!(transport.sent.len(), 0);
}

#[test]
fn min_auction_period_rejected_without_send() {
    let mut spec = base_spec();
    spec.min_auction_period = 5;
    let mut transport = RecordingTransport { sent: Vec::new() };
    assert_eq!(
        transport.submit(&spec),
        Err(Error::UnsupportedParameter(LegacyField::MinAuctionPeriod))
    );
    assert_eq!(transport.sent.len(), 0);
}

#[test]
fn nonempty_whitelist_rejected() {
    let mut spec = base_spec();
    spec.whitelist = Some(vec![vec![1u8; 20]]);
    assert_eq!(
        validate_request(&spec),
        Err(Error::UnsupportedParameter(LegacyField::Whitelist))
    );
}

#[test]
fn empty_whitelist_is_neutral() {
    let mut spec = base_spec();
    spec.whitelist = Some(Vec::new());
    assert_eq!(validate_request(&spec), Ok(()));
}

#[test]
fn auction_addresses_rejected() {
    let mut spec = base_spec();
    spec.auctioneer = Some(vec![2u8; 20]);
    assert_eq!(
        validate_request(&spec),
        Err(Error::UnsupportedParameter(LegacyField::Auctioneer))
    );

    let mut spec = base_spec();
    spec.executor = Some(vec![2u8; 20]);
    assert_eq!(
        validate_request(&spec),
        Err(Error::UnsupportedParameter(LegacyField::Executor))
    );

    let mut spec = base_spec();
    spec.verifier = Some(vec![2u8; 20]);
    assert_eq!(
        validate_request(&spec),
        Err(Error::UnsupportedParameter(LegacyField::Verifier))
    );

    let mut spec = base_spec();
    spec.treasury = Some(vec![2u8; 20]);
    assert_eq!(
        validate_request(&spec),
        Err(Error::UnsupportedParameter(LegacyField::Treasury))
    );
}

#[test]
fn price_and_legacy_timeout_rejected() {
    let mut spec = base_spec();
    spec.max_price_per_pgu = Some(10);
    assert_eq!(
        validate_request(&spec),
        Err(Error::UnsupportedParameter(LegacyField::MaxPricePerPgu))
    );

    let mut spec = base_spec();
    spec.auction_timeout_secs = Some(30);
    assert_eq!(
        validate_request(&spec),
        Err(Error::UnsupportedParameter(LegacyField::AuctionTimeout))
    );
}

#[test]
fn tee_second_factor_rejected() {
    let mut spec = base_spec();
    spec.tee_2fa = true;
    assert_eq!(validate_request(&spec), Err(Error::UnsupportedFeature));
}

#[test]
fn first_violation_wins() {
    let mut spec = base_spec();
    spec.strategy = FulfillmentStrategy::Auction;
    spec.min_auction_period = 5;
    spec.tee_2fa = true;
    assert_eq!(validate_request(&spec), Err(Error::UnsupportedStrategy));
}

#[test]
fn strategy_mapping_total_and_pure() {
    assert_eq!(
        network_api_strategy(FulfillmentStrategy::Hosted),
        NetworkApiFulfillmentStrategy::Hosted
    );
    assert_eq!(
        network_api_strategy(FulfillmentStrategy::Reserved),
        NetworkApiFulfillmentStrategy::Hosted
    );
    assert_eq!(
        network_api_strategy(FulfillmentStrategy::UnspecifiedFulfillmentStrategy),
        NetworkApiFulfillmentStrategy::Unspecified
    );
    assert_eq!(
        network_api_strategy(FulfillmentStrategy::Auction),
        NetworkApiFulfillmentStrategy::Auction
    );
}

#[test]
fn proof_mode_mapping_and_codes() {
    assert_eq!(network_api_proof_mode(ProofMode::Core), NetworkApiProofMode::Core);
    assert_eq!(
        network_api_proof_mode(ProofMode::Compressed),
        NetworkApiProofMode::Compressed
    );
    assert_eq!(network_api_proof_mode(ProofMode::Plonk), NetworkApiProofMode::Plonk);
    assert_eq!(network_api_proof_mode(ProofMode::Groth16), NetworkApiProofMode::Groth16);
    assert_eq!(proof_mode_code(NetworkApiProofMode::UnspecifiedProofMode), 0);
    assert_eq!(proof_mode_code(NetworkApiProofMode::Core), 1);
    assert_eq!(proof_mode_code(NetworkApiProofMode::Compressed), 2);
    assert_eq!(proof_mode_code(NetworkApiProofMode::Plonk), 3);
    assert_eq!(proof_mode_code(NetworkApiProofMode::Groth16), 4);
    assert_eq!(strategy_code(NetworkApiFulfillmentStrategy::Unspecified), 0);
    assert_eq!(strategy_code(NetworkApiFulfillmentStrategy::Hosted), 1);
    assert_eq!(strategy_code(NetworkApiFulfillmentStrategy::Reserved), 2);
    assert_eq!(strategy_code(NetworkApiFulfillmentStrategy::Auction), 3);
}

#[test]
fn prepared_message_carries_request() {
    let spec = base_spec();
    let message = prepare_submission(&spec, None).unwrap();
    assert_eq!(
        message.program_id,
        format!("0x{}", "11".repeat(32))
    );
    assert_eq!(message.elf, vec![1, 2, 3]);
    assert_eq!(message.stdin, vec![4, 5]);
    assert_eq!(message.proof_mode, 1);
    assert_eq!(message.strategy, 1);
    assert_eq!(message.timeout_secs, None);
    assert!(!message.skip_simulation);
    assert_eq!(message.min_auction_period, 0);
    assert!(message.whitelist.is_empty());
    assert!(message.auctioneer.is_empty());
    assert!(message.executor.is_empty());
    assert!(message.verifier.is_empty());
    assert!(message.treasury.is_empty());
    assert_eq!(message.max_price_per_pgu, None);
    assert_eq!(message.auction_timeout_secs, None);
    assert!(message.client_address.is_none());
    assert!(message.client_auth.is_none());
}

#[test]
fn prepared_message_carries_credential() {
    let spec = base_spec();
    let credential = ClientAuthCredential {
        job_id: String::from("job"),
        nonce: String::from("nonce"),
        timestamp: 7,
        signature: vec![1u8; 64],
        address: String::from("addr"),
    };
    let message = prepare_submission(&spec, Some(credential)).unwrap();
    assert_eq!(message.client_address, Some(String::from("addr")));
    let sent = message.client_auth.unwrap();
    assert_eq!(sent.job_id, "job");
    assert_eq!(sent.nonce, "nonce");
    assert_eq!(sent.timestamp, 7);
    assert_eq!(sent.signature, vec![1u8; 64]);
}

#[test]
fn builder_defaults_to_production_address() {
    let prover = NetworkProverBuilder::default().build(None);
    assert_eq!(prover.endpoint, MAINNET_RPC_URL);
    assert_eq!(prover.network_mode, NetworkMode::Mainnet);
    assert!(prover.tee_signers.is_empty());
}

#[test]
fn builder_explicit_address_wins() {
    let prover = NetworkProverBuilder::default()
        .rpc_url("http://127.0.0.1:50051")
        .build(Some(String::from("http://other:1")));
    assert_eq!(prover.endpoint, "http://127.0.0.1:50051");
}

#[test]
fn builder_takes_startup_address() {
    let prover = NetworkProverBuilder::default().build(Some(String::from("http://env:2")));
    assert_eq!(prover.endpoint, "http://env:2");
    let prover = NetworkProverBuilder::default().build(Some(String::new()));
    assert_eq!(prover.endpoint, MAINNET_RPC_URL);
}

#[test]
fn builder_sets_signers() {
    let prover = NetworkProverBuilder::default()
        .tee_signers(vec![vec![9u8; 20]])
        .build(None);
    assert_eq!(prover.tee_signers, vec![vec![9u8; 20]]);
}

#[test]
fn prover_construction() {
    let prover = NetworkProver::new(NetworkMode::Reserved, String::from("http://x:1"));
    assert_eq!(prover.endpoint, "http://x:1");
    assert_eq!(prover.network_mode(), NetworkMode::Reserved);
    assert_eq!(
        prover.default_fulfillment_strategy(),
        FulfillmentStrategy::Reserved
    );
    let prover = prover.with_tee_signers(vec![vec![3u8; 20]]);
    assert_eq!(prover.tee_signers, vec![vec![3u8; 20]]);
}

#[test]
fn prove_builds_neutral_spec() {
    let prover = NetworkProver::new(NetworkMode::Mainnet, String::from("http://x:1"));
    let spec = prover.prove(vec![0xaa; 32], vec![7], vec![8]);
    assert_eq!(spec.mode, ProofMode::Core);
    assert_eq!(spec.strategy, FulfillmentStrategy::Reserved);
    assert_eq!(validate_request(&spec), Ok(()));
}

#[test]
fn register_program_returns_program_id() {
    let prover = NetworkProver::new(NetworkMode::Mainnet, String::from("http://x:1"));
    let vk_hash = vec![0x5au8; 32];
    assert_eq!(prover.register_program(&vk_hash), Ok(vk_hash));
}

#[test]
fn clone_args_build_the_template_fetch() {
    let cmd = NewCmd {
        name: String::from("demo"),
        bare: true,
        version: String::from("main"),
    };
    assert_eq!(
        cmd.clone_args(),
        vec![
            String::from("clone"),
            String::from("--branch"),
            String::from("main"),
            String::from("--quiet"),
            String::from(TEMPLATE_REPOSITORY_URL),
            String::from("demo"),
            String::from("--depth=1"),
        ]
    );
}

#[test]
fn dev_mode_flag_values() {
    assert!(monerochan_dev_mode("1"));
    assert!(monerochan_dev_mode("true"));
    assert!(monerochan_dev_mode("TRUE"));
    assert!(monerochan_dev_mode("True"));
    assert!(!monerochan_dev_mode("false"));
    assert!(!monerochan_dev_mode("0"));
    assert!(!monerochan_dev_mode(""));
    assert!(!monerochan_dev_mode("truex"));
}
