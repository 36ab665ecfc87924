//! Proof-request model: proof modes, fulfillment strategies, the request
//! specification with its deprecated auction fields, and the validation that
//! rejects every non-neutral deprecated parameter before anything is sent.

use vstd::prelude::*;
use crate::errors::Error;
use crate::errors::LegacyField;

verus! {

/// Which proof representation the job must produce.
#[derive(Clone, Copy, Debug, PartialEq, Eq, Structural)]
pub enum ProofMode {
    Core,
    Compressed,
    Plonk,
    Groth16,
}

/// How the caller asks the remote service to schedule the job.
#[derive(Clone, Copy, Debug, PartialEq, Eq, Structural)]
pub enum FulfillmentStrategy {
    UnspecifiedFulfillmentStrategy,
    Hosted,
    Reserved,
    Auction,
}

/// Proof mode as the remote protocol enumerates it.
#[derive(Clone, Copy, Debug, PartialEq, Eq, Structural)]
pub enum NetworkApiProofMode {
    UnspecifiedProofMode,
    Core,
    Compressed,
    Plonk,
    Groth16,
}

/// Fulfillment strategy as the remote protocol enumerates it.
#[derive(Clone, Copy, Debug, PartialEq, Eq, Structural)]
pub enum NetworkApiFulfillmentStrategy {
    Unspecified,
    Hosted,
    Reserved,
    Auction,
}

/// The proof-mode mapping sent on the wire.
pub open spec fn spec_network_api_proof_mode(mode: ProofMode) -> NetworkApiProofMode {
    match mode {
        ProofMode::Core => NetworkApiProofMode::Core,
        ProofMode::Compressed => NetworkApiProofMode::Compressed,
        ProofMode::Plonk => NetworkApiProofMode::Plonk,
        ProofMode::Groth16 => NetworkApiProofMode::Groth16,
    }
}

/// Maps a requested proof mode to the remote protocol's enumeration.
pub fn network_api_proof_mode(mode: ProofMode) -> (r: NetworkApiProofMode)
    ensures
        r == spec_network_api_proof_mode(mode),
{
    match mode {
        ProofMode::Core => NetworkApiProofMode::Core,
        ProofMode::Compressed => NetworkApiProofMode::Compressed,
        ProofMode::Plonk => NetworkApiProofMode::Plonk,
        ProofMode::Groth16 => NetworkApiProofMode::Groth16,
    }
}

/// The strategy mapping sent on the wire: the backend does not distinguish
/// reserved capacity, so it is folded into hosted.
pub open spec fn spec_network_api_strategy(strategy: FulfillmentStrategy) -> NetworkApiFulfillmentStrategy {
    match strategy {
        FulfillmentStrategy::Hosted => NetworkApiFulfillmentStrategy::Hosted,
        FulfillmentStrategy::Reserved => NetworkApiFulfillmentStrategy::Hosted,
        FulfillmentStrategy::Auction => NetworkApiFulfillmentStrategy::Auction,
        FulfillmentStrategy::UnspecifiedFulfillmentStrategy => NetworkApiFulfillmentStrategy::Unspecified,
    }
}

/// Maps a requested fulfillment strategy to the remote protocol's
/// enumeration.
pub fn network_api_strategy(strategy: FulfillmentStrategy) -> (r: NetworkApiFulfillmentStrategy)
    ensures
        r == spec_network_api_strategy(strategy),
{
    match strategy {
        FulfillmentStrategy::Hosted => NetworkApiFulfillmentStrategy::Hosted,
        FulfillmentStrategy::Reserved => NetworkApiFulfillmentStrategy::Hosted,
        FulfillmentStrategy::Auction => NetworkApiFulfillmentStrategy::Auction,
        FulfillmentStrategy::UnspecifiedFulfillmentStrategy => NetworkApiFulfillmentStrategy::Unspecified,
    }
}

/// The strategy mapping is total and pure: hosted stays hosted, reserved is
/// folded into hosted, and an unspecified strategy stays unspecified, for
/// every strategy value.
pub proof fn lemma_strategy_mapping_total()
    ensures
        spec_network_api_strategy(FulfillmentStrategy::Hosted) == NetworkApiFulfillmentStrategy::Hosted,
        spec_network_api_strategy(FulfillmentStrategy::Reserved) == NetworkApiFulfillmentStrategy::Hosted,
        spec_network_api_strategy(FulfillmentStrategy::UnspecifiedFulfillmentStrategy)
            == NetworkApiFulfillmentStrategy::Unspecified,
        forall|s: FulfillmentStrategy| #![auto]
            s != FulfillmentStrategy::Auction
                ==> spec_network_api_strategy(s) != NetworkApiFulfillmentStrategy::Auction,
{
}

/// Wire code of a proof mode.
pub open spec fn spec_proof_mode_code(mode: NetworkApiProofMode) -> i32 {
    match mode {
        NetworkApiProofMode::UnspecifiedProofMode => 0,
        NetworkApiProofMode::Core => 1,
        NetworkApiProofMode::Compressed => 2,
        NetworkApiProofMode::Plonk => 3,
        NetworkApiProofMode::Groth16 => 4,
    }
}

/// Integer code of a proof mode, as the wire protocol carries it.
pub fn proof_mode_code(mode: NetworkApiProofMode) -> (r: i32)
    ensures
        r == spec_proof_mode_code(mode),
{
    match mode {
        NetworkApiProofMode::UnspecifiedProofMode => 0,
        NetworkApiProofMode::Core => 1,
        NetworkApiProofMode::Compressed => 2,
        NetworkApiProofMode::Plonk => 3,
        NetworkApiProofMode::Groth16 => 4,
    }
}

/// Wire code of a fulfillment strategy.
pub open spec fn spec_strategy_code(strategy: NetworkApiFulfillmentStrategy) -> i32 {
    match strategy {
        NetworkApiFulfillmentStrategy::Unspecified => 0,
        NetworkApiFulfillmentStrategy::Hosted => 1,
        NetworkApiFulfillmentStrategy::Reserved => 2,
        NetworkApiFulfillmentStrategy::Auction => 3,
    }
}

/// Integer code of a fulfillment strategy, as the wire protocol carries it.
pub fn strategy_code(strategy: NetworkApiFulfillmentStrategy) -> (r: i32)
    ensures
        r == spec_strategy_code(strategy),
{
    match strategy {
        NetworkApiFulfillmentStrategy::Unspecified => 0,
        NetworkApiFulfillmentStrategy::Hosted => 1,
        NetworkApiFulfillmentStrategy::Reserved => 2,
        NetworkApiFulfillmentStrategy::Auction => 3,
    }
}

/// Immutable description of one proof job: what to prove, how to schedule
/// it, the optional limits, and the deprecated auction fields, which are
/// accepted syntactically but must be at their neutral values.
pub struct ProofRequestSpec {
    /// Content hash of the verifying key, identifying the program.
    pub vk_hash: Vec<u8>,
    /// Executable bytes of the program.
    pub elf: Vec<u8>,
    /// Serialized input blob.
    pub stdin: Vec<u8>,
    pub mode: ProofMode,
    pub strategy: FulfillmentStrategy,
    /// Optional wall-clock bound on the whole job, in seconds.
    pub timeout_secs: Option<u64>,
    pub skip_simulation: bool,
    pub cycle_limit: Option<u64>,
    pub gas_limit: Option<u64>,
    /// Request for a second attestation round; never supported.
    pub tee_2fa: bool,
    /// Deprecated; must be 0.
    pub min_auction_period: u64,
    /// Deprecated; must be absent or empty.
    pub whitelist: Option<Vec<Vec<u8>>>,
    /// Deprecated; must be absent.
    pub auctioneer: Option<Vec<u8>>,
    /// Deprecated; must be absent.
    pub executor: Option<Vec<u8>>,
    /// Deprecated; must be absent.
    pub verifier: Option<Vec<u8>>,
    /// Deprecated; must be absent.
    pub treasury: Option<Vec<u8>>,
    /// Deprecated; must be absent.
    pub max_price_per_pgu: Option<u64>,
    /// Deprecated; must be absent.
    pub auction_timeout_secs: Option<u64>,
}

impl ProofRequestSpec {
    /// A fresh specification for one program and input, with every optional
    /// and deprecated field at its neutral value.
    pub fn new(vk_hash: Vec<u8>, elf: Vec<u8>, stdin: Vec<u8>) -> (r: ProofRequestSpec)
        ensures
            r.vk_hash == vk_hash,
            r.elf == elf,
            r.stdin == stdin,
            r.mode == ProofMode::Core,
            r.strategy == FulfillmentStrategy::Reserved,
            r.timeout_secs is None,
            !r.skip_simulation,
            r.cycle_limit is None,
            r.gas_limit is None,
            !r.tee_2fa,
            spec_validate(&r) is Ok,
    {
        ProofRequestSpec {
            vk_hash,
            elf,
            stdin,
            mode: ProofMode::Core,
            strategy: FulfillmentStrategy::Reserved,
            timeout_secs: None,
            skip_simulation: false,
            cycle_limit: None,
            gas_limit: None,
            tee_2fa: false,
            min_auction_period: 0,
            whitelist: None,
            auctioneer: None,
            executor: None,
            verifier: None,
            treasury: None,
            max_price_per_pgu: None,
            auction_timeout_secs: None,
        }
    }
}

/// Whether the deprecated whitelist is non-neutral: present and non-empty.
pub open spec fn spec_whitelist_nonneutral(s: &ProofRequestSpec) -> bool {
    match s.whitelist {
        Some(w) => w.len() > 0,
        None => false,
    }
}

/// The validation verdict, checked before any network call: the first
/// non-neutral deprecated parameter in a fixed order, or acceptance.
pub open spec fn spec_validate(s: &ProofRequestSpec) -> Result<(), Error> {
    if s.strategy is Auction {
        Err(Error::UnsupportedStrategy)
    } else if s.min_auction_period != 0 {
        Err(Error::UnsupportedParameter(LegacyField::MinAuctionPeriod))
    } else if spec_whitelist_nonneutral(s) {
        Err(Error::UnsupportedParameter(LegacyField::Whitelist))
    } else if s.auctioneer is Some {
        Err(Error::UnsupportedParameter(LegacyField::Auctioneer))
    } else if s.executor is Some {
        Err(Error::UnsupportedParameter(LegacyField::Executor))
    } else if s.verifier is Some {
        Err(Error::UnsupportedParameter(LegacyField::Verifier))
    } else if s.treasury is Some {
        Err(Error::UnsupportedParameter(LegacyField::Treasury))
    } else if s.max_price_per_pgu is Some {
        Err(Error::UnsupportedParameter(LegacyField::MaxPricePerPgu))
    } else if s.auction_timeout_secs is Some {
        Err(Error::UnsupportedParameter(LegacyField::AuctionTimeout))
    } else if s.tee_2fa {
        Err(Error::UnsupportedFeature)
    } else {
        Ok(())
    }
}

/// Checks a request specification, failing on the first non-neutral
/// deprecated parameter, on the deprecated auction strategy, and on the
/// unsupported second attestation round; accepts everything else.
pub fn validate_request(s: &ProofRequestSpec) -> (r: Result<(), Error>)
    ensures
        r == spec_validate(s),
        r is Ok <==> (
            !(s.strategy is Auction)
            && s.min_auction_period == 0
            && !spec_whitelist_nonneutral(s)
            && s.auctioneer is None
            && s.executor is None
            && s.verifier is None
            && s.treasury is None
            && s.max_price_per_pgu is None
            && s.auction_timeout_secs is None
            && !s.tee_2fa
        ),
{
    if matches!(s.strategy, FulfillmentStrategy::Auction) {
        Err(Error::UnsupportedStrategy)
    } else if s.min_auction_period != 0 {
        Err(Error::UnsupportedParameter(LegacyField::MinAuctionPeriod))
    } else if match &s.whitelist {
        Some(w) => w.len() > 0,
        None => false,
    } {
        Err(Error::UnsupportedParameter(LegacyField::Whitelist))
    } else if s.auctioneer.is_some() {
        Err(Error::UnsupportedParameter(LegacyField::Auctioneer))
    } else if s.executor.is_some() {
        Err(Error::UnsupportedParameter(LegacyField::Executor))
    } else if s.verifier.is_some() {
        Err(Error::UnsupportedParameter(LegacyField::Verifier))
    } else if s.treasury.is_some() {
        Err(Error::UnsupportedParameter(LegacyField::Treasury))
    } else if s.max_price_per_pgu.is_some() {
        Err(Error::UnsupportedParameter(LegacyField::MaxPricePerPgu))
    } else if s.auction_timeout_secs.is_some() {
        Err(Error::UnsupportedParameter(LegacyField::AuctionTimeout))
    } else if s.tee_2fa {
        Err(Error::UnsupportedFeature)
    } else {
        Ok(())
    }
}

/// Every disallowed deprecated parameter is rejected by validation — the
/// auction strategy, a non-zero auction period, a non-empty whitelist, any
/// of the auction addresses, a price bound, a legacy auction timeout, and
/// the second attestation round — so no message is ever prepared, and
/// nothing sent, for such a request.
pub proof fn lemma_deprecated_parameters_rejected(s: ProofRequestSpec)
    ensures
        s.strategy is Auction ==> spec_validate(&s) is Err,
        s.min_auction_period != 0 ==> spec_validate(&s) is Err,
        spec_whitelist_nonneutral(&s) ==> spec_validate(&s) is Err,
        s.auctioneer is Some ==> spec_validate(&s) is Err,
        s.executor is Some ==> spec_validate(&s) is Err,
        s.verifier is Some ==> spec_validate(&s) is Err,
        s.treasury is Some ==> spec_validate(&s) is Err,
        s.max_price_per_pgu is Some ==> spec_validate(&s) is Err,
        s.auction_timeout_secs is Some ==> spec_validate(&s) is Err,
        s.tee_2fa ==> spec_validate(&s) is Err,
{
}

} // verus!
