//! Sputnik DAO proposal kinds for payments and the JSON arguments of the
//! `add_proposal` call that submits them.
use vstd::prelude::*;
use crate::asset::{token_id_of, resolve_token_id, SimplifiedToken, TokenResidency};
use crate::json::{
    key_less, base64_of_text, field_views, json_object_text, json_quote, json_string_literal, json_to_base64,
    text_to_base64,
};
use crate::markdown::{encode_to_markdown, join_with, markdown_text};
use crate::error::PaymentError;

verus! {

/// Gas of a `v1.signer` `sign` call (15 TGas).
pub open spec fn v1_signer_gas() -> Seq<char> {
    "15000000000000"@
}

/// Gas of an `ft_transfer` or `mt_transfer` call (150 TGas).
pub open spec fn ft_transfer_gas() -> Seq<char> {
    "150000000000000"@
}

/// Gas of a `near_deposit` call (10 TGas).
pub open spec fn near_deposit_gas() -> Seq<char> {
    "10000000000000"@
}

/// One function call of a `FunctionCall` proposal.
#[derive(Debug)]
pub struct FunctionCallAction {
    pub method_name: String,
    /// Base64 of the JSON arguments.
    pub args: String,
    /// Attached deposit, in yoctoNEAR.
    pub deposit: String,
    pub gas: String,
}

pub struct ActionView {
    pub method_name: Seq<char>,
    pub args: Seq<char>,
    pub deposit: Seq<char>,
    pub gas: Seq<char>,
}

impl View for FunctionCallAction {
    type V = ActionView;

    open spec fn view(&self) -> ActionView {
        ActionView {
            method_name: self.method_name@,
            args: self.args@,
            deposit: self.deposit@,
            gas: self.gas@,
        }
    }
}

/// The kind of a payment proposal.
#[derive(Debug)]
pub enum ProposalKind {
    /// The DAO's built-in transfer of NEAR (`token_id` empty) or of a NEAR-chain
    /// fungible token; its `msg` is always null.
    Transfer { token_id: String, receiver_id: String, amount: String },
    /// Function calls made by the DAO on one receiver.
    FunctionCall { receiver_id: String, actions: Vec<FunctionCallAction> },
}

pub enum KindView {
    Transfer { token_id: Seq<char>, receiver_id: Seq<char>, amount: Seq<char> },
    FunctionCall { receiver_id: Seq<char>, actions: Seq<ActionView> },
}

impl View for ProposalKind {
    type V = KindView;

    open spec fn view(&self) -> KindView {
        match self {
            ProposalKind::Transfer { token_id, receiver_id, amount } => KindView::Transfer {
                token_id: token_id@,
                receiver_id: receiver_id@,
                amount: amount@,
            },
            ProposalKind::FunctionCall { receiver_id, actions } => KindView::FunctionCall {
                receiver_id: receiver_id@,
                actions: actions@.map_values(|a: FunctionCallAction| a@),
            },
        }
    }
}

pub open spec fn action_view(
    method_name: Seq<char>,
    args: Seq<char>,
    deposit: Seq<char>,
    gas: Seq<char>,
) -> ActionView {
    ActionView { method_name, args, deposit, gas }
}

fn action(method_name: &str, args: String, deposit: &str, gas: &str) -> (r: FunctionCallAction)
    ensures
        r@ == action_view(method_name@, args@, deposit@, gas@),
{
    FunctionCallAction {
        method_name: String::from_str(method_name),
        args,
        deposit: String::from_str(deposit),
        gas: String::from_str(gas),
    }
}

// ---------------------------------------------------------------------------
// Direct transfer
// ---------------------------------------------------------------------------

/// Description of a direct transfer: the notes only.
pub open spec fn transfer_description(notes: Seq<char>) -> Seq<char> {
    markdown_text(seq![("notes"@, notes)])
}

/// The `Transfer` kind that moves `amount` (raw units) of the token to `receiver`.
pub open spec fn transfer_kind(token: SimplifiedToken, receiver: Seq<char>, amount: Seq<char>) -> KindView {
    KindView::Transfer { token_id: token_id_of(token), receiver_id: receiver, amount }
}

/// Direct on-chain transfer: the DAO's built-in `Transfer` kind moves the funds straight
/// to a NEAR account.
pub fn transfer_proposal(token: &SimplifiedToken, receiver: &str, raw_amount: String, notes: &str) -> (r: (
    String,
    ProposalKind,
))
    ensures
        r.0@ == transfer_description(notes@),
        r.1@ == transfer_kind(*token, receiver@, raw_amount@),
{
    let pairs: [(&str, &str); 1] = [("notes", notes)];
    let description = encode_to_markdown(&pairs);
    assert(field_views(pairs@) =~= seq![("notes"@, notes@)]);
    let kind = ProposalKind::Transfer {
        token_id: resolve_token_id(token),
        receiver_id: String::from_str(receiver),
        amount: raw_amount,
    };
    (description, kind)
}

// ---------------------------------------------------------------------------
// Public intents route
// ---------------------------------------------------------------------------

/// What the proposal reads of a 1Click quote.
#[derive(Debug)]
pub struct Quote {
    /// Where the treasury must send the funds.
    pub deposit_address: Option<String>,
    /// How much the treasury must send, in raw units.
    pub amount_in: Option<String>,
    pub signature: Option<String>,
    /// The 1Click fee as shown in the description (input minus output amount, in
    /// token units), when it is positive.
    pub network_fee: Option<String>,
}

pub open spec fn opt_text(o: Option<String>) -> Seq<char> {
    match o {
        Some(s) => s@,
        None => Seq::empty(),
    }
}

/// JSON arguments `{"amount":…,"receiver_id":…}` of an `ft_transfer`.
pub open spec fn ft_transfer_args(deposit_address: Seq<char>, amount_in: Seq<char>) -> Seq<char> {
    base64_of_text(json_object_text(seq![("amount"@, amount_in), ("receiver_id"@, deposit_address)]))
}

/// The kind that moves `amount_in` of the token to the 1Click deposit address.
pub open spec fn public_intents_kind(
    token: SimplifiedToken,
    origin_asset: Seq<char>,
    deposit_address: Seq<char>,
    amount_in: Seq<char>,
) -> KindView {
    match token.residency {
        TokenResidency::Intents => KindView::FunctionCall {
            receiver_id: "intents.near"@,
            actions: seq![
                action_view(
                    "mt_transfer"@,
                    base64_of_text(
                        json_object_text(
                            seq![
                                ("amount"@, amount_in),
                                ("receiver_id"@, deposit_address),
                                ("token_id"@, origin_asset),
                            ],
                        ),
                    ),
                    "1"@,
                    ft_transfer_gas(),
                ),
            ],
        },
        TokenResidency::Near => KindView::FunctionCall {
            receiver_id: "wrap.near"@,
            actions: seq![
                action_view(
                    "near_deposit"@,
                    base64_of_text(json_object_text(Seq::empty())),
                    amount_in,
                    near_deposit_gas(),
                ),
                action_view(
                    "ft_transfer"@,
                    ft_transfer_args(deposit_address, amount_in),
                    "1"@,
                    ft_transfer_gas(),
                ),
            ],
        },
        TokenResidency::Ft => KindView::FunctionCall {
            receiver_id: token_id_of(token),
            actions: seq![
                action_view(
                    "ft_transfer"@,
                    ft_transfer_args(deposit_address, amount_in),
                    "1"@,
                    ft_transfer_gas(),
                ),
            ],
        },
    }
}

/// Description of a public intents payment.
pub open spec fn public_intents_description(
    notes: Seq<char>,
    receiver: Seq<char>,
    destination_network: Seq<char>,
    network_fee: Seq<char>,
    deposit_address: Seq<char>,
    signature: Seq<char>,
) -> Seq<char> {
    markdown_text(
        seq![
            ("proposal_action"@, "payment-transfer"@),
            ("notes"@, notes),
            ("recipient"@, receiver),
            ("destinationNetwork"@, destination_network),
            ("networkFee"@, network_fee),
            ("depositAddress"@, deposit_address),
            ("signature"@, signature),
        ],
    )
}

/// Public intents route: the proposal moves `amountIn` from the treasury to the 1Click
/// deposit address; 1Click then delivers the requested amount to the recipient on the
/// destination network.
pub fn build_public_intents_proposal(
    token: &SimplifiedToken,
    origin_asset: &str,
    quote: &Quote,
    receiver: &str,
    destination_network: &str,
    notes: &str,
) -> (r: Result<(String, ProposalKind), PaymentError>)
    ensures
        match (quote.deposit_address, quote.amount_in) {
            (None, _) => r matches Err(PaymentError::NoDepositAddress),
            (Some(_), None) => r matches Err(PaymentError::NoAmountIn),
            (Some(deposit_address), Some(amount_in)) => r matches Ok((description, kind)) && kind@
                == public_intents_kind(*token, origin_asset@, deposit_address@, amount_in@)
                && description@ == public_intents_description(
                notes@,
                receiver@,
                destination_network@,
                opt_text(quote.network_fee),
                deposit_address@,
                opt_text(quote.signature),
            ),
        },
{
    let deposit_address = match &quote.deposit_address {
        Some(a) => a.as_str(),
        None => return Err(PaymentError::NoDepositAddress),
    };
    let amount_in = match &quote.amount_in {
        Some(a) => a.as_str(),
        None => return Err(PaymentError::NoAmountIn),
    };
    let ghost expected = public_intents_kind(*token, origin_asset@, deposit_address@, amount_in@);
    let kind = match token.residency {
        TokenResidency::Intents => {
            let fields: Vec<(&str, &str)> = vec![
                ("amount", amount_in),
                ("receiver_id", deposit_address),
                ("token_id", origin_asset),
            ];
            assert(field_views(fields@) =~= seq![
                ("amount"@, amount_in@),
                ("receiver_id"@, deposit_address@),
                ("token_id"@, origin_asset@),
            ]);
            proof {
                reveal_strlit("amount");
                reveal_strlit("receiver_id");
                reveal_strlit("token_id");
                assert(key_less("amount"@, "receiver_id"@));
                assert(key_less("receiver_id"@, "token_id"@));
            }
            let args = json_to_base64(&fields);
            let mut actions: Vec<FunctionCallAction> = Vec::new();
            actions.push(action("mt_transfer", args, "1", "150000000000000"));
            let kind = ProposalKind::FunctionCall {
                receiver_id: String::from_str("intents.near"),
                actions,
            };
            assert(kind@->FunctionCall_actions =~= expected->FunctionCall_actions);
            kind
        },
        TokenResidency::Near => {
            let empty: Vec<(&str, &str)> = Vec::new();
            assert(field_views(empty@) =~= Seq::<(Seq<char>, Seq<char>)>::empty());
            let wrap_args = json_to_base64(&empty);
            let fields: Vec<(&str, &str)> = vec![
                ("amount", amount_in),
                ("receiver_id", deposit_address),
            ];
            assert(field_views(fields@) =~= seq![
                ("amount"@, amount_in@),
                ("receiver_id"@, deposit_address@),
            ]);
            proof {
                reveal_strlit("amount");
                reveal_strlit("receiver_id");
                reveal_strlit("token_id");
                assert(key_less("amount"@, "receiver_id"@));
                assert(key_less("receiver_id"@, "token_id"@));
            }
            let args = json_to_base64(&fields);
            let mut actions: Vec<FunctionCallAction> = Vec::new();
            actions.push(action("near_deposit", wrap_args, amount_in, "10000000000000"));
            actions.push(action("ft_transfer", args, "1", "150000000000000"));
            let kind = ProposalKind::FunctionCall {
                receiver_id: String::from_str("wrap.near"),
                actions,
            };
            assert(kind@->FunctionCall_actions =~= expected->FunctionCall_actions);
            kind
        },
        TokenResidency::Ft => {
            let fields: Vec<(&str, &str)> = vec![
                ("amount", amount_in),
                ("receiver_id", deposit_address),
            ];
            assert(field_views(fields@) =~= seq![
                ("amount"@, amount_in@),
                ("receiver_id"@, deposit_address@),
            ]);
            proof {
                reveal_strlit("amount");
                reveal_strlit("receiver_id");
                reveal_strlit("token_id");
                assert(key_less("amount"@, "receiver_id"@));
                assert(key_less("receiver_id"@, "token_id"@));
            }
            let args = json_to_base64(&fields);
            let mut actions: Vec<FunctionCallAction> = Vec::new();
            actions.push(action("ft_transfer", args, "1", "150000000000000"));
            let kind = ProposalKind::FunctionCall { receiver_id: resolve_token_id(token), actions };
            assert(kind@->FunctionCall_actions =~= expected->FunctionCall_actions);
            kind
        },
    };
    let network_fee = match &quote.network_fee {
        Some(f) => f.as_str(),
        None => "",
    };
    let signature = match &quote.signature {
        Some(s) => s.as_str(),
        None => "",
    };
    proof {
        reveal_strlit("");
    }
    assert(network_fee@ == opt_text(quote.network_fee));
    assert(signature@ == opt_text(quote.signature));
    let pairs: [(&str, &str); 7] = [
        ("proposal_action", "payment-transfer"),
        ("notes", notes),
        ("recipient", receiver),
        ("destinationNetwork", destination_network),
        ("networkFee", network_fee),
        ("depositAddress", deposit_address),
        ("signature", signature),
    ];
    assert(field_views(pairs@) =~= seq![
        ("proposal_action"@, "payment-transfer"@),
        ("notes"@, notes@),
        ("recipient"@, receiver@),
        ("destinationNetwork"@, destination_network@),
        ("networkFee"@, opt_text(quote.network_fee)),
        ("depositAddress"@, deposit_address@),
        ("signature"@, opt_text(quote.signature)),
    ]);
    let description = encode_to_markdown(&pairs);
    Ok((description, kind))
}

// ---------------------------------------------------------------------------
// Confidential route
// ---------------------------------------------------------------------------

/// Description of a confidential payment: fixed, so that it reveals neither the token
/// nor the amount.
pub open spec fn confidential_description() -> Seq<char> {
    markdown_text(
        seq![
            ("proposal_action"@, "confidential"@),
            (
                "notes"@,
                "Confidential proposal via private intents. Details are hidden for privacy."@,
            ),
        ],
    )
}

/// JSON arguments of the `v1.signer` `sign` call: an Ed25519 (domain 1) signature of
/// the payload hash, derived on the treasury's path.
pub open spec fn signer_args_text(treasury_id: Seq<char>, payload_hash: Seq<char>) -> Seq<char> {
    "{\"request\":{\"domain_id\":1,\"path\":"@ + json_string_literal(treasury_id)
        + ",\"payload_v2\":{\"Eddsa\":"@ + json_string_literal(payload_hash) + "}}}"@
}

/// The kind that asks `v1.signer` to sign the intent's payload hash.
pub open spec fn confidential_kind(treasury_id: Seq<char>, payload_hash: Seq<char>) -> KindView {
    KindView::FunctionCall {
        receiver_id: "v1.signer"@,
        actions: seq![
            action_view(
                "sign"@,
                base64_of_text(signer_args_text(treasury_id, payload_hash)),
                "1"@,
                v1_signer_gas(),
            ),
        ],
    }
}

#[verifier::external_type_specification]
#[verifier::external_body]
pub struct ExJsonValue(serde_json::Value);

/// The members of a JSON object value, by key (`None` when the value is not an
/// object).
pub uninterp spec fn json_object_members(value: serde_json::Value) -> Option<
    Map<Seq<char>, serde_json::Value>,
>;

/// Calls `serde_json::Map::remove` on the members of an object value: the member with
/// that key is gone and the others stay; a value that is not an object is left as it
/// is.
#[verifier::external_body]
fn remove_json_member(value: &mut serde_json::Value, key: &str)
    ensures
        match json_object_members(*old(value)) {
            Some(members) => json_object_members(*final(value)) == Some(members.remove(key@)),
            None => *final(value) == *old(value),
        },
{
    if let serde_json::Value::Object(members) = value {
        members.remove(key);
    }
}

/// The quote as it goes with the intent: without its correlation id.
pub open spec fn quote_metadata_of(metadata: serde_json::Value, quote: serde_json::Value) -> bool {
    match json_object_members(quote) {
        Some(members) => json_object_members(metadata) == Some(members.remove("correlationId"@)),
        None => metadata == quote,
    }
}

/// The request to generate (and store) the confidential 1Click intent.
#[derive(Debug)]
pub struct IntentRequest {
    /// Always `swap_transfer`.
    pub intent_type: String,
    /// Always `nep413`.
    pub standard: String,
    /// The treasury, which signs the intent.
    pub signer_id: String,
    /// The 1Click quote, without its `correlationId`.
    pub quote_metadata: serde_json::Value,
    /// The payment notes, absent when empty.
    pub notes: Option<String>,
}

/// Confidential route, first half: what to ask the backend to generate for the quote
/// 1Click answered (`quote`, as it came).
pub fn confidential_intent_request(treasury_id: &str, notes: &str, quote: serde_json::Value) -> (r:
    IntentRequest)
    ensures
        r.intent_type@ == "swap_transfer"@,
        r.standard@ == "nep413"@,
        r.signer_id@ == treasury_id@,
        quote_metadata_of(r.quote_metadata, quote),
        notes@.len() == 0 ==> r.notes is None,
        notes@.len() > 0 ==> (r.notes matches Some(n) && n@ == notes@),
{
    let mut quote_metadata = quote;
    remove_json_member(&mut quote_metadata, "correlationId");
    IntentRequest {
        intent_type: String::from_str("swap_transfer"),
        standard: String::from_str("nep413"),
        signer_id: String::from_str(treasury_id),
        quote_metadata,
        notes: if notes.unicode_len() == 0 {
            None
        } else {
            Some(String::from_str(notes))
        },
    }
}

/// Confidential route, second half: wrap the generated intent's payload hash into a
/// `v1.signer` `sign` proposal. The proposal signs a hash and reveals neither token nor
/// amount.
pub fn build_confidential_proposal(treasury_id: &str, payload_hash: Option<&str>) -> (r: Result<
    (String, ProposalKind),
    PaymentError,
>)
    ensures
        match payload_hash {
            None => r matches Err(PaymentError::NoPayloadHash),
            Some(h) => r matches Ok((description, kind)) && description@
                == confidential_description() && kind@ == confidential_kind(treasury_id@, h@),
        },
{
    let hash = match payload_hash {
        Some(h) => h,
        None => return Err(PaymentError::NoPayloadHash),
    };
    let mut args_text = String::from_str("{\"request\":{\"domain_id\":1,\"path\":");
    let q_path = json_quote(treasury_id);
    args_text.append(q_path.as_str());
    args_text.append(",\"payload_v2\":{\"Eddsa\":");
    let q_hash = json_quote(hash);
    args_text.append(q_hash.as_str());
    args_text.append("}}}");
    assert(args_text@ =~= signer_args_text(treasury_id@, hash@));
    let args = text_to_base64(args_text.as_str());
    let pairs: [(&str, &str); 2] = [
        ("proposal_action", "confidential"),
        ("notes", "Confidential proposal via private intents. Details are hidden for privacy."),
    ];
    assert(field_views(pairs@) =~= seq![
        ("proposal_action"@, "confidential"@),
        (
            "notes"@,
            "Confidential proposal via private intents. Details are hidden for privacy."@,
        ),
    ]);
    let description = encode_to_markdown(&pairs);
    let mut actions: Vec<FunctionCallAction> = Vec::new();
    actions.push(action("sign", args, "1", "15000000000000"));
    let kind = ProposalKind::FunctionCall { receiver_id: String::from_str("v1.signer"), actions };
    assert(kind@->FunctionCall_actions =~= confidential_kind(
        treasury_id@,
        hash@,
    )->FunctionCall_actions);
    Ok((description, kind))
}

// ---------------------------------------------------------------------------
// The `add_proposal` arguments
// ---------------------------------------------------------------------------

/// JSON of one function call action.
pub open spec fn action_json(a: ActionView) -> Seq<char> {
    "{\"args\":"@ + json_string_literal(a.args) + ",\"deposit\":"@ + json_string_literal(a.deposit)
        + ",\"gas\":"@ + json_string_literal(a.gas) + ",\"method_name\":"@ + json_string_literal(
        a.method_name,
    ) + "}"@
}

/// JSON of a proposal kind, as the DAO contract reads it.
pub open spec fn kind_json(k: KindView) -> Seq<char> {
    match k {
        KindView::Transfer { token_id, receiver_id, amount } => "{\"Transfer\":{\"amount\":"@
            + json_string_literal(amount) + ",\"msg\":null,\"receiver_id\":"@ + json_string_literal(
            receiver_id,
        ) + ",\"token_id\":"@ + json_string_literal(token_id) + "}}"@,
        KindView::FunctionCall { receiver_id, actions } => "{\"FunctionCall\":{\"actions\":["@
            + join_with(actions.map_values(|a: ActionView| action_json(a)), ","@)
            + "],\"receiver_id\":"@ + json_string_literal(receiver_id) + "}}"@,
    }
}

/// JSON arguments of `add_proposal`.
pub open spec fn add_proposal_args(description: Seq<char>, kind: KindView) -> Seq<char> {
    "{\"proposal\":{\"description\":"@ + json_string_literal(description) + ",\"kind\":"@
        + kind_json(kind) + "}}"@
}

fn write_action_json(out: &mut String, a: &FunctionCallAction)
    ensures
        final(out)@ == old(out)@ + action_json(a@),
{
    out.append("{\"args\":");
    out.append(json_quote(a.args.as_str()).as_str());
    out.append(",\"deposit\":");
    out.append(json_quote(a.deposit.as_str()).as_str());
    out.append(",\"gas\":");
    out.append(json_quote(a.gas.as_str()).as_str());
    out.append(",\"method_name\":");
    out.append(json_quote(a.method_name.as_str()).as_str());
    out.append("}");
    assert(out@ =~= old(out)@ + action_json(a@));
}

fn write_kind_json(out: &mut String, kind: &ProposalKind)
    ensures
        final(out)@ == old(out)@ + kind_json(kind@),
{
    match kind {
        ProposalKind::Transfer { token_id, receiver_id, amount } => {
            out.append("{\"Transfer\":{\"amount\":");
            out.append(json_quote(amount.as_str()).as_str());
            out.append(",\"msg\":null,\"receiver_id\":");
            out.append(json_quote(receiver_id.as_str()).as_str());
            out.append(",\"token_id\":");
            out.append(json_quote(token_id.as_str()).as_str());
            out.append("}}");
            assert(out@ =~= old(out)@ + kind_json(kind@));
        },
        ProposalKind::FunctionCall { receiver_id, actions } => {
            out.append("{\"FunctionCall\":{\"actions\":[");
            let ghost start = out@;
            let ghost views = actions@.map_values(|a: FunctionCallAction| a@).map_values(
                |a: ActionView| action_json(a),
            );
            let n = actions.len();
            assert(views.take(0) =~= Seq::<Seq<char>>::empty());
            assert(out@ =~= start + join_with(views.take(0), ","@));
            for i in 0..n
                invariant
                    n == actions@.len(),
                    views == actions@.map_values(|a: FunctionCallAction| a@).map_values(
                        |a: ActionView| action_json(a),
                    ),
                    out@ == start + join_with(views.take(i as int), ","@),
            {
                proof {
                    assert(views.take(i + 1).drop_last() =~= views.take(i as int));
                    assert(views.take(i + 1).last() == action_json(actions@[i as int]@));
                    reveal_strlit(",");
                }
                if i > 0 {
                    out.append(",");
                }
                write_action_json(out, &actions[i]);
                assert(out@ =~= start + join_with(views.take(i + 1), ","@));
            }
            assert(views.take(n as int) =~= views);
            out.append("],\"receiver_id\":");
            out.append(json_quote(receiver_id.as_str()).as_str());
            out.append("}}");
            assert(out@ =~= old(out)@ + kind_json(kind@));
        },
    }
}

/// The JSON text of the `add_proposal` arguments for a description and a kind.
pub fn add_proposal_args_json(description: &str, kind: &ProposalKind) -> (r: String)
    ensures
        r@ == add_proposal_args(description@, kind@),
{
    let mut out = String::from_str("{\"proposal\":{\"description\":");
    out.append(json_quote(description).as_str());
    out.append(",\"kind\":");
    write_kind_json(&mut out, kind);
    out.append("}}");
    assert(out@ =~= add_proposal_args(description@, kind@));
    out
}

} // verus!
