//! The network prover client: configuration, construction, preparation of
//! authenticated submissions, and the attestation gate in front of result
//! verification.

use vstd::prelude::*;
use crate::attestation::spec_attestation_accepted;
use crate::attestation::verify_attestation;
use crate::auth::ClientAuthCredential;
use crate::codec::ProofBundle;
use crate::errors::Error;
use crate::hexstr::hex_encode;
use crate::hexstr::spec_hex_of;
use crate::request::FulfillmentStrategy;
use crate::request::ProofMode;
use crate::request::ProofRequestSpec;
use crate::request::proof_mode_code;
use crate::request::network_api_proof_mode;
use crate::request::network_api_strategy;
use crate::request::spec_network_api_proof_mode;
use crate::request::spec_network_api_strategy;
use crate::request::spec_proof_mode_code;
use crate::request::spec_strategy_code;
use crate::request::spec_validate;
use crate::request::strategy_code;
use crate::request::validate_request;
use crate::status::copy_bytes;

verus! {

/// Address of the production service, used when neither an explicit nor an
/// environment-supplied address is given.
pub const MAINNET_RPC_URL: &'static str = "https://rpc.mainnet.monero-chan.org";

/// Network mode of a client; kept for compatibility, every request goes
/// through the same service.
#[derive(Clone, Copy, Debug, PartialEq, Eq, Structural)]
pub enum NetworkMode {
    Mainnet,
    Reserved,
}

impl Default for NetworkMode {
    fn default() -> (r: Self)
        ensures
            r == NetworkMode::Mainnet,
    {
        NetworkMode::Mainnet
    }
}

/// Marker for the local CPU proving backend that executes and proves
/// programs on this machine; the network client uses it only through the
/// out-of-scope proving capability.
pub struct CpuProverComponents;

/// One proof request as the remote protocol carries it, ready to send.
pub struct RequestProofMessage {
    /// The program identifier: the verifying-key hash as a hex string with
    /// a `0x` prefix.
    pub program_id: String,
    pub elf: Vec<u8>,
    pub stdin: Vec<u8>,
    pub proof_mode: i32,
    pub strategy: i32,
    pub timeout_secs: Option<u64>,
    pub skip_simulation: bool,
    pub cycle_limit: Option<u64>,
    pub gas_limit: Option<u64>,
    pub min_auction_period: u64,
    pub whitelist: Vec<Vec<u8>>,
    pub auctioneer: Vec<u8>,
    pub executor: Vec<u8>,
    pub verifier: Vec<u8>,
    pub treasury: Vec<u8>,
    pub max_price_per_pgu: Option<u64>,
    pub auction_timeout_secs: Option<u64>,
    pub client_address: Option<String>,
    pub client_auth: Option<ClientAuthCredential>,
}

/// Validates a request and, if it passes, builds the message to send:
/// program identifier as prefixed hex of the verifying-key hash, the
/// executable and input bytes, the mapped proof mode and strategy codes,
/// the optional limits, every deprecated field at its neutral value, and
/// the credential if one was supplied. Fails with exactly the validation
/// verdict otherwise — an invalid request yields no message at all.
pub fn prepare_submission(spec: &ProofRequestSpec, auth: Option<ClientAuthCredential>) -> (r: Result<
    RequestProofMessage,
    Error,
>)
    ensures
        r is Ok <==> spec_validate(spec) is Ok,
        r matches Err(e) ==> spec_validate(spec) == Result::<(), Error>::Err(e),
        r matches Ok(m) ==> {
            &&& m.program_id@ == "0x"@ + spec_hex_of(spec.vk_hash@)
            &&& m.elf@ == spec.elf@
            &&& m.stdin@ == spec.stdin@
            &&& m.proof_mode == spec_proof_mode_code(spec_network_api_proof_mode(spec.mode))
            &&& m.strategy == spec_strategy_code(spec_network_api_strategy(spec.strategy))
            &&& m.timeout_secs == spec.timeout_secs
            &&& m.skip_simulation == spec.skip_simulation
            &&& m.cycle_limit == spec.cycle_limit
            &&& m.gas_limit == spec.gas_limit
            &&& m.min_auction_period == 0
            &&& m.whitelist@.len() == 0
            &&& m.auctioneer@.len() == 0
            &&& m.executor@.len() == 0
            &&& m.verifier@.len() == 0
            &&& m.treasury@.len() == 0
            &&& m.max_price_per_pgu is None
            &&& m.auction_timeout_secs is None
            &&& match (&m.client_auth, &auth) {
                (None, None) => m.client_address is None,
                (Some(sent), Some(given)) => {
                    &&& *sent == *given
                    &&& m.client_address matches Some(a) && a@ == given.address@
                },
                _ => false,
            }
        },
{
    if let Err(e) = validate_request(spec) {
        return Err(e);
    }
    let mut program_id = String::from_str("0x");
    let digest_hex = hex_encode(spec.vk_hash.as_slice());
    program_id.append(digest_hex.as_str());
    let (client_address, client_auth) = match auth {
        None => (None, None),
        Some(credential) => (Some(credential.address.clone()), Some(credential)),
    };
    Ok(RequestProofMessage {
        program_id,
        elf: copy_bytes(&spec.elf),
        stdin: copy_bytes(&spec.stdin),
        proof_mode: proof_mode_code(network_api_proof_mode(spec.mode)),
        strategy: strategy_code(network_api_strategy(spec.strategy)),
        timeout_secs: spec.timeout_secs,
        skip_simulation: spec.skip_simulation,
        cycle_limit: spec.cycle_limit,
        gas_limit: spec.gas_limit,
        min_auction_period: 0,
        whitelist: Vec::new(),
        auctioneer: Vec::new(),
        executor: Vec::new(),
        verifier: Vec::new(),
        treasury: Vec::new(),
        max_price_per_pgu: None,
        auction_timeout_secs: None,
        client_address,
        client_auth,
    })
}

/// A client that offloads proof generation to the remote service.
pub struct NetworkProver {
    pub endpoint: String,
    pub tee_signers: Vec<Vec<u8>>,
    pub network_mode: NetworkMode,
}

impl NetworkProver {
    /// A client for the given mode and service address, with no trusted
    /// attestation signers yet.
    pub fn new(network_mode: NetworkMode, rpc_url: String) -> (r: Self)
        ensures
            r.endpoint == rpc_url,
            r.tee_signers@.len() == 0,
            r.network_mode == network_mode,
    {
        NetworkProver { endpoint: rpc_url, tee_signers: Vec::new(), network_mode }
    }

    /// Replaces the set of trusted attestation signers.
    pub fn with_tee_signers(self, tee_signers: Vec<Vec<u8>>) -> (r: Self)
        ensures
            r.endpoint == self.endpoint,
            r.tee_signers == tee_signers,
            r.network_mode == self.network_mode,
    {
        NetworkProver { tee_signers, ..self }
    }

    /// The network mode of this client.
    pub fn network_mode(&self) -> (r: NetworkMode)
        ensures
            r == self.network_mode,
    {
        self.network_mode
    }

    /// The fulfillment strategy requests carry unless the caller picks one.
    pub fn default_fulfillment_strategy(&self) -> (r: FulfillmentStrategy)
        ensures
            r == FulfillmentStrategy::Reserved,
    {
        FulfillmentStrategy::Reserved
    }

    /// A fresh request specification for one program and input, carrying
    /// this client's default strategy and every optional field at its
    /// neutral value.
    pub fn prove(&self, vk_hash: Vec<u8>, elf: Vec<u8>, stdin: Vec<u8>) -> (r: ProofRequestSpec)
        ensures
            r.vk_hash == vk_hash,
            r.elf == elf,
            r.stdin == stdin,
            r.mode == ProofMode::Core,
            r.strategy == FulfillmentStrategy::Reserved,
            spec_validate(&r) is Ok,
    {
        ProofRequestSpec::new(vk_hash, elf, stdin)
    }

    /// The program identifier under which a program is known to the
    /// service: its verifying-key hash. Registration itself happens with
    /// the first submission.
    pub fn register_program(&self, vk_hash: &Vec<u8>) -> (r: Result<Vec<u8>, Error>)
        requires
            vk_hash@.len() == 32,
        ensures
            r matches Ok(v) && v@ == vk_hash@,
    {
        Ok(copy_bytes(vk_hash))
    }

    /// The attestation gate of result verification: a bundle without an
    /// attestation passes; one with an attestation passes exactly when its
    /// recovered signer is in this client's allow-list, and never when
    /// that list is empty. Ordinary proof verification is the caller's
    /// separate, unconditional step; this gate only adds trust.
    pub fn verify(&self, bundle: &ProofBundle, vkey_hash: &Vec<u8>) -> (r: Result<(), Error>)
        ensures
            bundle.tee_proof is None ==> r == Result::<(), Error>::Ok(()),
            bundle.tee_proof matches Some(t) ==> {
                &&& (r is Ok <==> spec_attestation_accepted(
                    t@,
                    vkey_hash@,
                    bundle.public_values@,
                    self.tee_signers@,
                ))
                &&& (self.tee_signers@.len() == 0 ==> r == Result::<(), Error>::Err(
                    Error::NoSignersConfigured,
                ))
            },
    {
        match &bundle.tee_proof {
            None => Ok(()),
            Some(tee_proof) => verify_attestation(
                tee_proof,
                vkey_hash,
                &bundle.public_values,
                &self.tee_signers,
            ),
        }
    }
}

/// Assembles a network prover from explicit settings and startup
/// configuration; orchestrates nothing itself.
pub struct NetworkProverBuilder {
    pub rpc_url: Option<String>,
    pub tee_signers: Option<Vec<Vec<u8>>>,
    pub network_mode: Option<NetworkMode>,
}

impl Default for NetworkProverBuilder {
    fn default() -> (r: Self)
        ensures
            r.rpc_url is None,
            r.tee_signers is None,
            r.network_mode is None,
    {
        NetworkProverBuilder { rpc_url: None, tee_signers: None, network_mode: None }
    }
}

/// The service address a built client uses: the explicit one if set, else
/// a non-empty startup-supplied one, else the production address.
pub open spec fn spec_chosen_endpoint(explicit: Option<String>, startup: Option<String>) -> Seq<char> {
    match explicit {
        Some(u) => u@,
        None => match startup {
            Some(e) => if e@.len() > 0 {
                e@
            } else {
                MAINNET_RPC_URL@
            },
            None => MAINNET_RPC_URL@,
        },
    }
}

impl NetworkProverBuilder {
    /// Sets the service address requests go to.
    pub fn rpc_url(self, rpc_url: &str) -> (r: Self)
        ensures
            r.rpc_url matches Some(u) && u@ == rpc_url@,
            r.tee_signers == self.tee_signers,
            r.network_mode == self.network_mode,
    {
        NetworkProverBuilder { rpc_url: Some(String::from_str(rpc_url)), ..self }
    }

    /// Sets the trusted attestation signers.
    pub fn tee_signers(self, tee_signers: Vec<Vec<u8>>) -> (r: Self)
        ensures
            r.tee_signers matches Some(s) && s == tee_signers,
            r.rpc_url == self.rpc_url,
            r.network_mode == self.network_mode,
    {
        NetworkProverBuilder { tee_signers: Some(tee_signers), ..self }
    }

    /// Builds the client. `startup_rpc_url` is the address the startup
    /// configuration supplies, if any; an explicit address wins, an empty
    /// startup address is ignored, and the production address is the last
    /// resort.
    pub fn build(self, startup_rpc_url: Option<String>) -> (r: NetworkProver)
        ensures
            r.endpoint@ == spec_chosen_endpoint(self.rpc_url, startup_rpc_url),
            r.network_mode == match self.network_mode {
                Some(m) => m,
                None => NetworkMode::Mainnet,
            },
            match self.tee_signers {
                Some(s) => r.tee_signers == s,
                None => r.tee_signers@.len() == 0,
            },
    {
        let network_mode = match self.network_mode {
            Some(m) => m,
            None => NetworkMode::Mainnet,
        };
        let tee_signers = match self.tee_signers {
            Some(s) => s,
            None => Vec::new(),
        };
        let endpoint: String = match self.rpc_url {
            Some(u) => u,
            None => match startup_rpc_url {
                Some(e) => if e.as_str().unicode_len() > 0 {
                    e
                } else {
                    String::from_str(MAINNET_RPC_URL)
                },
                None => String::from_str(MAINNET_RPC_URL),
            },
        };
        NetworkProver { endpoint, tee_signers, network_mode }
    }
}

} // verus!
