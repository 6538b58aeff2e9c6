//! The `payments send` decisions, as a flow of steps: each step takes what the
//! previous outside call returned (bridge catalog, normalized amount, quote,
//! generated intent) and says what to do next.
use vstd::prelude::*;
use crate::asset::{
    bridge_asset_for, find_bridge_asset, lemma_first_bridge_match_facts, normalized_asset_id, origin_asset_of, resolve_origin_asset, BridgeAsset,
    BridgeNetwork, TokenResidency,
};
use crate::context::{account_id_error_text, parse_account_id, valid_account_id, Policy, PaymentTokenContext, TrezuConfig};
use crate::error::PaymentError;
use crate::proposal::{
    add_proposal_args, add_proposal_args_json, build_confidential_proposal,
    build_public_intents_proposal, confidential_description, confidential_intent_request,
    confidential_kind, opt_text, public_intents_description, public_intents_kind,
    quote_metadata_of, transfer_description, transfer_kind, transfer_proposal, IntentRequest,
    ProposalKind, Quote,
};
use crate::text::{parse_u128, parse_u128_spec, parse_u64, parse_u64_spec, str_equal, trim, trimmed};

verus! {

/// The `payments` command: the treasury, then what to do.
#[derive(Debug)]
pub struct Payments {
    /// Treasury (DAO) account id.
    pub treasury_id: String,
    pub command: PaymentsCommand,
}

/// The payment actions.
#[derive(Debug)]
pub enum PaymentsCommand {
    /// Create a payment proposal.
    Send(PaymentSend),
}

/// The `payments send` command.
#[derive(Debug)]
pub struct PaymentSend {
    /// Token to send (e.g. NEAR, USDT, USDC).
    pub token: String,
    pub details: PaymentDetails,
}

/// The payment details given on the command line.
#[derive(Debug)]
pub struct PaymentDetails {
    /// Amount the recipient should receive, in token units (e.g. `0.5`).
    pub amount: String,
    /// `near` (direct transfer), `near.com` (NEAR Intents), or a bridge asset id.
    pub destination_network: String,
    /// Recipient address on the destination network.
    pub receiver: String,
    /// Notes of the payment.
    pub description: String,
}

/// How a payment travels.
#[derive(Debug, Clone, Copy, PartialEq, Eq, Structural)]
pub enum Route {
    /// A `Transfer` proposal on the NEAR chain.
    Direct,
    /// To the recipient's NEAR Intents balance.
    NearIntents,
    /// Through 1Click to another chain.
    CrossChain,
}

/// The route of a (trimmed) destination network.
pub open spec fn route_of(destination: Seq<char>) -> Route {
    if destination == "near"@ {
        Route::Direct
    } else if destination.len() == 0 || destination == "near.com"@ {
        Route::NearIntents
    } else {
        Route::CrossChain
    }
}

/// Which side of a 1Click swap an account is on.
#[derive(Debug, Clone, Copy, PartialEq, Eq, Structural)]
pub enum IntentsAccount {
    ConfidentialIntents,
    Intents,
    OriginChain,
    DestinationChain,
}

pub open spec fn account_wire_name(a: IntentsAccount) -> Seq<char> {
    match a {
        IntentsAccount::ConfidentialIntents => "CONFIDENTIAL_INTENTS"@,
        IntentsAccount::Intents => "INTENTS"@,
        IntentsAccount::OriginChain => "ORIGIN_CHAIN"@,
        IntentsAccount::DestinationChain => "DESTINATION_CHAIN"@,
    }
}

impl IntentsAccount {
    /// The name 1Click uses for this account type.
    pub fn wire_name(&self) -> (r: &'static str)
        ensures
            r@ == account_wire_name(*self),
    {
        match self {
            IntentsAccount::ConfidentialIntents => "CONFIDENTIAL_INTENTS",
            IntentsAccount::Intents => "INTENTS",
            IntentsAccount::OriginChain => "ORIGIN_CHAIN",
            IntentsAccount::DestinationChain => "DESTINATION_CHAIN",
        }
    }
}

/// Where the treasury pays from: its private intents balance when confidential, its
/// intents balance for an intents token, the NEAR chain otherwise.
pub open spec fn deposit_type_of(is_confidential: bool, residency: TokenResidency) -> IntentsAccount {
    if is_confidential {
        IntentsAccount::ConfidentialIntents
    } else if residency == TokenResidency::Intents {
        IntentsAccount::Intents
    } else {
        IntentsAccount::OriginChain
    }
}

/// The proposal bond: the policy's `proposal_bond` when it reads as a `u128`, else 0.
pub open spec fn deposit_of(policy: Policy) -> u128 {
    match policy.proposal_bond {
        Some(b) => match parse_u128_spec(b@) {
            Some(v) => v,
            None => 0,
        },
        None => 0,
    }
}

/// A day, in milliseconds.
pub open spec fn one_day_ms() -> u64 {
    86_400_000
}

/// How long the quote's deposit address must stay valid: the policy's proposal
/// period (nanoseconds) in milliseconds, or a day when it does not read as a `u64`.
pub open spec fn deadline_ms_of(policy: Policy) -> u64 {
    match policy.proposal_period {
        Some(p) => match parse_u64_spec(p@) {
            Some(nanos) => nanos / 1_000_000,
            None => one_day_ms(),
        },
        None => one_day_ms(),
    }
}

/// The proposal bond of a policy.
pub fn proposal_deposit(policy: &Policy) -> (r: u128)
    ensures
        r == deposit_of(*policy),
{
    match &policy.proposal_bond {
        Some(b) => match parse_u128(b.as_str()) {
            Some(v) => v,
            None => 0,
        },
        None => 0,
    }
}

/// The quote deadline, in milliseconds from now.
pub fn quote_deadline_ms(policy: &Policy) -> (r: u64)
    ensures
        r == deadline_ms_of(*policy),
{
    match &policy.proposal_period {
        Some(p) => match parse_u64(p.as_str()) {
            Some(nanos) => nanos / 1_000_000,
            None => 86_400_000,
        },
        None => 86_400_000,
    }
}

/// The text handed to the fungible-token amount parser: the trimmed amount, a space,
/// and the symbol.
pub open spec fn amount_input(amount: Seq<char>, symbol: Seq<char>) -> Seq<char> {
    trimmed(amount) + " "@ + symbol
}

/// An amount to convert into raw units of a token with `decimals` decimals.
#[derive(Debug)]
pub struct AmountQuery {
    /// The amount and symbol, e.g. `0.5 USDC`.
    pub ft_input: String,
    pub symbol: String,
    pub decimals: u8,
}

/// The 1Click quote request of a payment.
#[derive(Debug)]
pub struct QuoteRequest {
    pub dao_id: String,
    /// Always `EXACT_OUTPUT`: the recipient receives exactly `amount`.
    pub swap_type: String,
    pub slippage_tolerance: u32,
    pub origin_asset: String,
    pub deposit_type: IntentsAccount,
    pub destination_asset: String,
    /// Raw amount the recipient receives.
    pub amount: String,
    pub refund_to: String,
    pub refund_type: IntentsAccount,
    pub recipient: String,
    pub recipient_type: IntentsAccount,
    /// How long the deposit address must stay valid, from now.
    pub deadline_ms: u64,
    pub quote_waiting_time_ms: u32,
    pub is_payment: bool,
    pub dry: bool,
}

/// A payment proposal ready to be submitted.
#[derive(Debug)]
pub struct PaymentSendContext {
    pub signer_id: String,
    pub trezu_config: TrezuConfig,
    pub treasury_id: String,
    pub description: String,
    pub kind: ProposalKind,
    /// The proposal bond, in yoctoNEAR.
    pub deposit: u128,
}

/// What the flow waits for.
#[derive(Debug)]
pub enum SendStage {
    /// The 1Click bridge catalog, for a cross-chain payment of `origin_asset`.
    AwaitBridgeCatalog { origin_asset: String },
    /// The raw amount of a direct transfer.
    AwaitTransferAmount,
    /// The raw amount of an intents payment.
    AwaitIntentsAmount {
        origin_asset: String,
        destination_asset: String,
        recipient_type: IntentsAccount,
    },
    /// The 1Click quote.
    AwaitQuote { origin_asset: String },
    /// The payload hash of the generated confidential intent.
    AwaitIntent,
}

/// A payment being prepared.
#[derive(Debug)]
pub struct SendFlow {
    pub context: PaymentTokenContext,
    pub details: PaymentDetails,
    /// The destination network, trimmed.
    pub destination_network: String,
    /// The proposal bond.
    pub deposit: u128,
    pub stage: SendStage,
}

/// What to do next.
#[derive(Debug)]
pub enum SendStep {
    /// Fetch the 1Click bridge catalog and hand it to `bridge_catalog_received`.
    FetchBridgeCatalog(SendFlow),
    /// Convert the amount into raw units and hand it to `amount_normalized`.
    NormalizeAmount(SendFlow, AmountQuery),
    /// Request this quote and hand what it holds, and the answer itself, to
    /// `quote_received`.
    RequestQuote(SendFlow, QuoteRequest),
    /// Generate this intent and hand its payload hash to `intent_generated`.
    GenerateIntent(SendFlow, IntentRequest),
    /// The proposal is ready.
    Done(PaymentSendContext),
    /// The payment cannot be made.
    Failed(PaymentError),
}

/// The origin asset a stage carries.
pub open spec fn stage_origin(stage: SendStage) -> Seq<char> {
    match stage {
        SendStage::AwaitBridgeCatalog { origin_asset } => origin_asset@,
        SendStage::AwaitIntentsAmount { origin_asset, .. } => origin_asset@,
        SendStage::AwaitQuote { origin_asset } => origin_asset@,
        _ => Seq::empty(),
    }
}

/// Each step hands on a flow that waits for what the step asks for.
pub open spec fn step_consistent(step: SendStep) -> bool {
    match step {
        SendStep::FetchBridgeCatalog(f) => f.stage is AwaitBridgeCatalog,
        SendStep::NormalizeAmount(f, _) => f.stage is AwaitTransferAmount
            || f.stage is AwaitIntentsAmount,
        SendStep::RequestQuote(f, _) => f.stage is AwaitQuote,
        SendStep::GenerateIntent(f, _) => f.stage is AwaitIntent,
        _ => true,
    }
}

/// `g` is the same payment as `f` (only the stage moved on).
pub open spec fn same_payment(g: SendFlow, f: SendFlow) -> bool {
    &&& g.context == f.context
    &&& g.details == f.details
    &&& g.destination_network == f.destination_network
    &&& g.deposit == f.deposit
}

/// `f` is the payment of `context` and `details`.
pub open spec fn payment_of(f: SendFlow, context: PaymentTokenContext, details: PaymentDetails) -> bool {
    &&& f.context == context
    &&& f.details == details
    &&& f.destination_network@ == trimmed(details.destination_network@)
    &&& f.deposit == deposit_of(context.policy)
}

/// The amount query of a payment for a token with `decimals` decimals.
pub open spec fn amount_query_of(q: AmountQuery, f: SendFlow, decimals: u8) -> bool {
    &&& q.ft_input@ == amount_input(f.details.amount@, f.context.token.symbol@)
    &&& q.symbol@ == f.context.token.symbol@
    &&& q.decimals == decimals
}

/// The finished proposal keeps the payment's signer, configuration, treasury and bond.
pub open spec fn finishes(ctx: PaymentSendContext, f: SendFlow) -> bool {
    &&& ctx.signer_id == f.context.signer_id
    &&& ctx.trezu_config == f.context.trezu_config
    &&& ctx.treasury_id@ == f.context.treasury_id@
    &&& ctx.deposit == f.deposit
}

/// The flow waits for the raw amount of an intents payment of `origin` to `destination`.
pub open spec fn awaits_intents_amount(
    stage: SendStage,
    origin: Seq<char>,
    destination: Seq<char>,
    recipient: IntentsAccount,
) -> bool {
    match stage {
        SendStage::AwaitIntentsAmount { origin_asset, destination_asset, recipient_type } => {
            &&& origin_asset@ == origin
            &&& destination_asset@ == destination
            &&& recipient_type == recipient
        },
        _ => false,
    }
}

/// The flow waits for the bridge catalog, for a payment of `origin`.
pub open spec fn awaits_bridge_catalog(stage: SendStage, origin: Seq<char>) -> bool {
    match stage {
        SendStage::AwaitBridgeCatalog { origin_asset } => origin_asset@ == origin,
        _ => false,
    }
}

/// The flow waits for the quote of a payment of `origin`.
pub open spec fn awaits_quote(stage: SendStage, origin: Seq<char>) -> bool {
    match stage {
        SendStage::AwaitQuote { origin_asset } => origin_asset@ == origin,
        _ => false,
    }
}

/// The quote request of payment `f` for `amount` raw units of `destination`.
pub open spec fn quote_request_of(
    q: QuoteRequest,
    f: SendFlow,
    origin: Seq<char>,
    destination: Seq<char>,
    recipient: IntentsAccount,
    amount: Seq<char>,
) -> bool {
    let deposit_type = deposit_type_of(f.context.is_confidential, f.context.token.residency);
    &&& q.dao_id@ == f.context.treasury_id@
    &&& q.swap_type@ == "EXACT_OUTPUT"@
    &&& q.slippage_tolerance == 0
    &&& q.origin_asset@ == origin
    &&& q.deposit_type == deposit_type
    &&& q.destination_asset@ == destination
    &&& q.amount@ == amount
    &&& q.refund_to@ == f.context.treasury_id@
    &&& q.refund_type == deposit_type
    &&& q.recipient@ == f.details.receiver@
    &&& q.recipient_type == recipient
    &&& q.deadline_ms == deadline_ms_of(f.context.policy)
    &&& q.quote_waiting_time_ms == 0
    &&& q.is_payment
    &&& !q.dry
}

/// Index of the first network whose id is exactly `id`.
pub open spec fn first_network_with_id(networks: Seq<BridgeNetwork>, id: Seq<char>) -> Option<int>
    decreases networks.len(),
{
    if networks.len() == 0 {
        None
    } else {
        match first_network_with_id(networks.drop_last(), id) {
            Some(j) => Some(j),
            None => if networks.last().id@ == id {
                Some(networks.len() - 1)
            } else {
                None
            },
        }
    }
}

/// The catalog asset and network a cross-chain payment of `origin` to `destination`
/// goes through.
pub open spec fn cross_chain_target(
    catalog: Seq<BridgeAsset>,
    origin: Seq<char>,
    destination: Seq<char>,
) -> Option<(int, int)> {
    match bridge_asset_for(catalog, origin) {
        Some(i) => match first_network_with_id(catalog[i].networks@, destination) {
            Some(j) => Some((i, j)),
            None => None,
        },
        None => None,
    }
}

proof fn lemma_first_network_prefix(networks: Seq<BridgeNetwork>, id: Seq<char>, k: int)
    requires
        0 <= k <= networks.len(),
        first_network_with_id(networks.take(k), id) is Some,
    ensures
        first_network_with_id(networks, id) == first_network_with_id(networks.take(k), id),
    decreases networks.len(),
{
    if k < networks.len() {
        assert(networks.drop_last().take(k) =~= networks.take(k));
        lemma_first_network_prefix(networks.drop_last(), id, k);
    } else {
        assert(networks.take(k) =~= networks);
    }
}

/// The first network with an id is one with that id, and there is none only when no
/// network has it.
pub proof fn lemma_first_network_facts(networks: Seq<BridgeNetwork>, id: Seq<char>)
    ensures
        match first_network_with_id(networks, id) {
            Some(j) => 0 <= j < networks.len() && networks[j].id@ == id,
            None => forall|j: int| 0 <= j < networks.len() ==> (#[trigger] networks[j]).id@ != id,
        },
    decreases networks.len(),
{
    if networks.len() > 0 {
        let p = networks.drop_last();
        lemma_first_network_facts(p, id);
        if first_network_with_id(p, id) is None {
            assert forall|j: int| 0 <= j < networks.len() - 1 implies (#[trigger] networks[j]).id@
                != id by {
                assert(p[j] == networks[j]);
            }
        } else {
            let j = first_network_with_id(p, id)->Some_0;
            assert(p[j] == networks[j]);
        }
    }
}

fn find_network_with_id(networks: &Vec<BridgeNetwork>, id: &str) -> (r: Option<usize>)
    ensures
        match first_network_with_id(networks@, id@) {
            Some(j) => r == Some(j as usize),
            None => r is None,
        },
{
    let n = networks.len();
    assert(networks@.take(0) =~= Seq::<BridgeNetwork>::empty());
    for j in 0..n
        invariant
            n == networks@.len(),
            first_network_with_id(networks@.take(j as int), id@) is None,
    {
        let same = str_equal(networks[j].id.as_str(), id);
        proof {
            assert(networks@.take(j + 1).drop_last() =~= networks@.take(j as int));
            assert(networks@.take(j + 1).last() == networks@[j as int]);
        }
        if same {
            proof {
                lemma_first_network_prefix(networks@, id@, j + 1);
            }
            return Some(j);
        }
    }
    assert(networks@.take(n as int) =~= networks@);
    None
}

fn amount_query(amount: &str, symbol: &str, decimals: u8) -> (r: AmountQuery)
    ensures
        r.ft_input@ == amount_input(amount@, symbol@),
        r.symbol@ == symbol@,
        r.decimals == decimals,
{
    let mut ft_input = String::from_str(trim(amount));
    ft_input.append(" ");
    ft_input.append(symbol);
    AmountQuery { ft_input, symbol: String::from_str(symbol), decimals }
}

impl PaymentSendContext {
    /// Starts preparing the payment of `details` with the token of `previous_context`:
    /// works out the bond and the route, and says what is needed first.
    pub fn from_previous_context(previous_context: PaymentTokenContext, details: PaymentDetails) -> (r:
        SendStep)
        ensures
            step_consistent(r),
            ({
                let dn = trimmed(details.destination_network@);
                let token = previous_context.token;
                match route_of(dn) {
                    Route::Direct => if token.residency == TokenResidency::Intents {
                        r matches SendStep::Failed(PaymentError::DirectTransferUnavailable { symbol })
                            && (symbol@ == token.symbol@)
                    } else {
                        r matches SendStep::NormalizeAmount(f, q) && (payment_of(f, previous_context, details)
                            && f.stage is AwaitTransferAmount && amount_query_of(q, f, token.decimals))
                    },
                    Route::NearIntents => r matches SendStep::NormalizeAmount(f, q) && (payment_of(
                        f,
                        previous_context,
                        details,
                    ) && awaits_intents_amount(
                        f.stage,
                        origin_asset_of(token),
                        origin_asset_of(token),
                        if previous_context.is_confidential {
                            IntentsAccount::ConfidentialIntents
                        } else {
                            IntentsAccount::Intents
                        },
                    ) && amount_query_of(q, f, token.decimals)),
                    Route::CrossChain => r matches SendStep::FetchBridgeCatalog(f) && (payment_of(
                        f,
                        previous_context,
                        details,
                    ) && awaits_bridge_catalog(f.stage, origin_asset_of(token))),
                }
            }),
    {
        let context = previous_context;
        proof {
            reveal_strlit("near");
            reveal_strlit("near.com");
        }
        let deposit = proposal_deposit(&context.policy);
        let destination_network = String::from_str(trim(details.destination_network.as_str()));
        let is_direct = str_equal(destination_network.as_str(), "near");
        let is_near_com = destination_network.as_str().unicode_len() == 0 || str_equal(
            destination_network.as_str(),
            "near.com",
        );
        if is_direct {
            if context.token.residency == TokenResidency::Intents {
                return SendStep::Failed(
                    PaymentError::DirectTransferUnavailable { symbol: context.token.symbol.clone() },
                );
            }
            let query = amount_query(
                details.amount.as_str(),
                context.token.symbol.as_str(),
                context.token.decimals,
            );
            let flow = SendFlow {
                context,
                details,
                destination_network,
                deposit,
                stage: SendStage::AwaitTransferAmount,
            };
            return SendStep::NormalizeAmount(flow, query);
        }
        let origin_asset = resolve_origin_asset(&context.token);
        if is_near_com {
            let recipient_type = if context.is_confidential {
                IntentsAccount::ConfidentialIntents
            } else {
                IntentsAccount::Intents
            };
            let query = amount_query(
                details.amount.as_str(),
                context.token.symbol.as_str(),
                context.token.decimals,
            );
            let destination_asset = origin_asset.clone();
            let flow = SendFlow {
                context,
                details,
                destination_network,
                deposit,
                stage: SendStage::AwaitIntentsAmount { origin_asset, destination_asset, recipient_type },
            };
            SendStep::NormalizeAmount(flow, query)
        } else {
            let flow = SendFlow {
                context,
                details,
                destination_network,
                deposit,
                stage: SendStage::AwaitBridgeCatalog { origin_asset },
            };
            SendStep::FetchBridgeCatalog(flow)
        }
    }

}

impl SendFlow {
    /// Cross-chain: the destination network id doubles as the destination asset, and
    /// the amount is scaled with the destination-side decimals.
    pub fn bridge_catalog_received(self, catalog: &Vec<BridgeAsset>) -> (r: SendStep)
        requires
            self.stage is AwaitBridgeCatalog,
        ensures
            step_consistent(r),
            ({
                let origin = stage_origin(self.stage);
                match cross_chain_target(catalog@, origin, self.destination_network@) {
                    None => r matches SendStep::Failed(
                        PaymentError::DestinationUnavailable { destination, symbol, origin: o },
                    ) && destination@ == self.destination_network@ && symbol@
                        == self.context.token.symbol@ && o@ == origin,
                    Some((i, j)) => r matches SendStep::NormalizeAmount(f, q) && (same_payment(f, self)
                        && awaits_intents_amount(
                        f.stage,
                        origin,
                        catalog@[i].networks@[j].id@,
                        IntentsAccount::DestinationChain,
                    ) && amount_query_of(q, f, catalog@[i].networks@[j].decimals)),
                }
            }),
    {
        let SendFlow { context, details, destination_network, deposit, stage } = self;
        let origin_asset = match stage {
            SendStage::AwaitBridgeCatalog { origin_asset } => origin_asset,
            _ => {
                assert(false);
                String::new()
            },
        };
        let target = match find_bridge_asset(catalog, origin_asset.as_str()) {
            Some(asset) => {
                let found = find_network_with_id(&asset.networks, destination_network.as_str());
                proof {
                    lemma_first_network_facts(asset.networks@, destination_network@);
                }
                proof {
                    lemma_first_bridge_match_facts(catalog@, normalized_asset_id(origin_asset@));
                }
                let ghost i = bridge_asset_for(catalog@, origin_asset@)->Some_0;
                assert(*asset == catalog@[i]);
                match found {
                    Some(j) => {
                        assert(asset.networks@.len() == asset.networks.len());
                        assert(bridge_asset_for(catalog@, origin_asset@) == Some(i));
                        assert(first_network_with_id(catalog@[i].networks@, destination_network@)
                            == Some(j as int));
                        assert(cross_chain_target(catalog@, origin_asset@, destination_network@)
                            == Some((i, j as int)));
                        Some((asset.networks[j].id.clone(), asset.networks[j].decimals))
                    },
                    None => None,
                }
            },
            None => None,
        };
        assert(match cross_chain_target(catalog@, origin_asset@, destination_network@) {
            Some((i, j)) => target matches Some((d, dec)) && d@ == catalog@[i].networks@[j].id@
                && dec == catalog@[i].networks@[j].decimals,
            None => target is None,
        });
        match target {
            Some((destination_asset, decimals)) => {
                let query = amount_query(
                    details.amount.as_str(),
                    context.token.symbol.as_str(),
                    decimals,
                );
                let flow = SendFlow {
                    context,
                    details,
                    destination_network,
                    deposit,
                    stage: SendStage::AwaitIntentsAmount {
                        origin_asset,
                        destination_asset,
                        recipient_type: IntentsAccount::DestinationChain,
                    },
                };
                SendStep::NormalizeAmount(flow, query)
            },
            None => SendStep::Failed(
                PaymentError::DestinationUnavailable {
                    destination: destination_network,
                    symbol: context.token.symbol,
                    origin: origin_asset,
                },
            ),
        }
    }

    /// The amount in raw units is known: a direct transfer is ready; an intents payment
    /// asks for an `EXACT_OUTPUT` quote, in which the recipient receives exactly that
    /// amount and the treasury pays the amount plus the 1Click fees.
    pub fn amount_normalized(self, raw_amount: String) -> (r: SendStep)
        requires
            self.stage is AwaitTransferAmount || self.stage is AwaitIntentsAmount,
        ensures
            step_consistent(r),
            match self.stage {
                SendStage::AwaitIntentsAmount { origin_asset, destination_asset, recipient_type } => {
                    r matches SendStep::RequestQuote(f, q) && (same_payment(f, self) && awaits_quote(
                        f.stage,
                        origin_asset@,
                    ) && quote_request_of(
                        q,
                        self,
                        origin_asset@,
                        destination_asset@,
                        recipient_type,
                        raw_amount@,
                    ))
                },
                _ => r matches SendStep::Done(ctx) && finishes(ctx, self) && ctx.description@
                    == transfer_description(self.details.description@) && ctx.kind@ == transfer_kind(
                    self.context.token,
                    self.details.receiver@,
                    raw_amount@,
                ),
            },
    {
        let SendFlow { context, details, destination_network, deposit, stage } = self;
        match stage {
            SendStage::AwaitIntentsAmount { origin_asset, destination_asset, recipient_type } => {
                let deposit_type = if context.is_confidential {
                    IntentsAccount::ConfidentialIntents
                } else if context.token.residency == TokenResidency::Intents {
                    IntentsAccount::Intents
                } else {
                    IntentsAccount::OriginChain
                };
                let request = QuoteRequest {
                    dao_id: context.treasury_id.clone(),
                    swap_type: String::from_str("EXACT_OUTPUT"),
                    slippage_tolerance: 0,
                    origin_asset: origin_asset.clone(),
                    deposit_type,
                    destination_asset,
                    amount: raw_amount,
                    refund_to: context.treasury_id.clone(),
                    refund_type: deposit_type,
                    recipient: details.receiver.clone(),
                    recipient_type,
                    deadline_ms: quote_deadline_ms(&context.policy),
                    quote_waiting_time_ms: 0,
                    is_payment: true,
                    dry: false,
                };
                let flow = SendFlow {
                    context,
                    details,
                    destination_network,
                    deposit,
                    stage: SendStage::AwaitQuote { origin_asset },
                };
                SendStep::RequestQuote(flow, request)
            },
            _ => {
                let (description, kind) = transfer_proposal(
                    &context.token,
                    details.receiver.as_str(),
                    raw_amount,
                    details.description.as_str(),
                );
                SendStep::Done(
                    PaymentSendContext {
                        signer_id: context.signer_id,
                        trezu_config: context.trezu_config,
                        treasury_id: context.treasury_id,
                        description,
                        kind,
                        deposit,
                    },
                )
            },
        }
    }

    /// The quote is known: a confidential treasury asks the backend to generate the
    /// intent; a public one proposes to send `amountIn` to the deposit address.
    pub fn quote_received(self, quote: Quote, quote_json: serde_json::Value) -> (r: SendStep)
        requires
            self.stage is AwaitQuote,
        ensures
            step_consistent(r),
            self.context.is_confidential ==> (r matches SendStep::GenerateIntent(f, req)
                && same_payment(f, self) && f.stage is AwaitIntent && req.intent_type@
                == "swap_transfer"@ && req.standard@ == "nep413"@ && req.signer_id@
                == self.context.treasury_id@ && quote_metadata_of(req.quote_metadata, quote_json)
                && (self.details.description@.len() == 0 ==> req.notes is None)
                && (self.details.description@.len() > 0 ==> (req.notes matches Some(n) && n@
                == self.details.description@))),
            !self.context.is_confidential ==> match (quote.deposit_address, quote.amount_in) {
                (None, _) => r matches SendStep::Failed(PaymentError::NoDepositAddress),
                (Some(_), None) => r matches SendStep::Failed(PaymentError::NoAmountIn),
                (Some(d), Some(a)) => r matches SendStep::Done(ctx) && finishes(ctx, self)
                    && ctx.kind@ == public_intents_kind(
                    self.context.token,
                    stage_origin(self.stage),
                    d@,
                    a@,
                ) && ctx.description@ == public_intents_description(
                    self.details.description@,
                    self.details.receiver@,
                    self.destination_network@,
                    opt_text(quote.network_fee),
                    d@,
                    opt_text(quote.signature),
                ),
            },
    {
        let SendFlow { context, details, destination_network, deposit, stage } = self;
        let origin_asset = match stage {
            SendStage::AwaitQuote { origin_asset } => origin_asset,
            _ => {
                assert(false);
                String::new()
            },
        };
        if context.is_confidential {
            let request = confidential_intent_request(
                context.treasury_id.as_str(),
                details.description.as_str(),
                quote_json,
            );
            let flow = SendFlow {
                context,
                details,
                destination_network,
                deposit,
                stage: SendStage::AwaitIntent,
            };
            return SendStep::GenerateIntent(flow, request);
        }
        match build_public_intents_proposal(
            &context.token,
            origin_asset.as_str(),
            &quote,
            details.receiver.as_str(),
            destination_network.as_str(),
            details.description.as_str(),
        ) {
            Ok((description, kind)) => SendStep::Done(
                PaymentSendContext {
                    signer_id: context.signer_id,
                    trezu_config: context.trezu_config,
                    treasury_id: context.treasury_id,
                    description,
                    kind,
                    deposit,
                },
            ),
            Err(e) => SendStep::Failed(e),
        }
    }

    /// The confidential intent is generated: propose to have `v1.signer` sign its
    /// payload hash.
    pub fn intent_generated(self, payload_hash: Option<String>) -> (r: SendStep)
        requires
            self.stage is AwaitIntent,
        ensures
            step_consistent(r),
            match payload_hash {
                None => r matches SendStep::Failed(PaymentError::NoPayloadHash),
                Some(h) => r matches SendStep::Done(ctx) && finishes(ctx, self) && ctx.description@
                    == confidential_description() && ctx.kind@ == confidential_kind(
                    self.context.treasury_id@,
                    h@,
                ),
            },
    {
        let SendFlow { context, details, destination_network, deposit, stage } = self;
        let built = match &payload_hash {
            Some(h) => build_confidential_proposal(context.treasury_id.as_str(), Some(h.as_str())),
            None => build_confidential_proposal(context.treasury_id.as_str(), None),
        };
        match built {
            Ok((description, kind)) => SendStep::Done(
                PaymentSendContext {
                    signer_id: context.signer_id,
                    trezu_config: context.trezu_config,
                    treasury_id: context.treasury_id,
                    description,
                    kind,
                    deposit,
                },
            ),
            Err(e) => SendStep::Failed(e),
        }
    }
}

/// The `add_proposal` call that submits a payment proposal to the treasury.
#[derive(Debug)]
pub struct ProposalCall {
    pub signer_id: String,
    /// The treasury, a valid account id.
    pub receiver_id: String,
    pub method_name: String,
    /// JSON arguments `{"proposal":{"description":…,"kind":…}}`.
    pub args_json: String,
    /// 270 TGas.
    pub gas: u64,
    /// The proposal bond, in yoctoNEAR.
    pub deposit: u128,
}

/// The transaction of a prepared payment: `add_proposal` on the treasury, signed by
/// the payment's signer, with the proposal bond attached.
pub fn add_proposal_call(ctx: &PaymentSendContext) -> (r: Result<ProposalCall, PaymentError>)
    ensures
        valid_account_id(ctx.treasury_id@) ==> (r matches Ok(call) && call.signer_id@
            == ctx.signer_id@ && call.receiver_id@ == ctx.treasury_id@ && call.method_name@
            == "add_proposal"@ && call.args_json@ == add_proposal_args(ctx.description@, ctx.kind@)
            && call.gas == 270_000_000_000_000 && call.deposit == ctx.deposit),
        !valid_account_id(ctx.treasury_id@) ==> (r matches Err(
            PaymentError::InvalidTreasuryId { reason },
        ) && reason@ == account_id_error_text(ctx.treasury_id@)),
{
    let args_json = add_proposal_args_json(ctx.description.as_str(), &ctx.kind);
    match parse_account_id(ctx.treasury_id.as_str()) {
        Ok(receiver_id) => Ok(
            ProposalCall {
                signer_id: ctx.signer_id.clone(),
                receiver_id,
                method_name: String::from_str("add_proposal"),
                args_json,
                gas: 270_000_000_000_000,
                deposit: ctx.deposit,
            },
        ),
        Err(reason) => Err(PaymentError::InvalidTreasuryId { reason }),
    }
}

} // verus!
