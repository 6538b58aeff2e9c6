//! What the payment proposals and requests say, stated over their inputs: which account
//! receives what, from where the treasury pays, and what the submitted text carries.
use vstd::prelude::*;
use crate::asset::{is_native_near, nep141_prefix, token_id_of, SimplifiedToken, TokenResidency};
use crate::destination::destination_choices_spec;
use crate::asset::BridgeAsset;
use crate::json::{
    base64_decode, json_object_text, json_string_literal,
    lemma_base64_of_text_decodes,
};
use crate::markdown::join_with;
use crate::proposal::{
    action_json, add_proposal_args, public_intents_kind, transfer_kind, ActionView, KindView,
};
use crate::send::{quote_request_of, IntentsAccount, QuoteRequest, SendFlow};
use crate::text::has_prefix;

verus! {

/// `piece` stands in `text` from position `p` on.
pub open spec fn holds_at(text: Seq<char>, piece: Seq<char>, p: int) -> bool {
    &&& 0 <= p
    &&& p + piece.len() <= text.len()
    &&& text.subrange(p, p + piece.len()) == piece
}

/// The JSON object of a function call as the DAO contract reads it: its base64
/// arguments, attached deposit, gas and method name, keys in ascending order.
pub open spec fn action_object(a: ActionView) -> Seq<char> {
    seq!['{'] + json_string_literal("args"@) + seq![':'] + json_string_literal(a.args) + seq![',']
        + json_string_literal("deposit"@) + seq![':'] + json_string_literal(a.deposit) + seq![',']
        + json_string_literal("gas"@) + seq![':'] + json_string_literal(a.gas) + seq![',']
        + json_string_literal("method_name"@) + seq![':'] + json_string_literal(a.method_name)
        + seq!['}']
}

proof fn lemma_join_holds_item(items: Seq<Seq<char>>, sep: Seq<char>, i: int) -> (p: int)
    requires
        0 <= i < items.len(),
    ensures
        holds_at(join_with(items, sep), items[i], p),
    decreases items.len(),
{
    if items.len() == 1 {
        assert(join_with(items, sep).subrange(0, items[0].len() as int) =~= items[0]);
        0
    } else {
        let head = join_with(items.drop_last(), sep);
        let whole = join_with(items, sep);
        assert(whole == head + sep + items.last());
        if i == items.len() - 1 {
            let p: int = (head.len() + sep.len()) as int;
            assert(whole.subrange(p, p + items[i].len()) =~= items[i]);
            p
        } else {
            let p = lemma_join_holds_item(items.drop_last(), sep, i);
            assert(items.drop_last()[i] == items[i]);
            assert(whole.subrange(p, p + items[i].len()) =~= head.subrange(p, p + items[i].len()));
            p
        }
    }
}

proof fn lemma_json_string_literal_of_key(k: Seq<char>)
    requires
        forall|j: int| 0 <= j < k.len() ==> crate::json::json_plain_char(#[trigger] k[j]),
    ensures
        json_string_literal(k) == seq!['"'] + k + seq!['"'],
{
    crate::json::lemma_json_escaped_plain(k);
}

/// The `add_proposal` arguments of a function-call proposal carry every action as an
/// object of its own: the action's base64 arguments, its attached deposit, its gas and
/// its method name, each under its own key.
pub proof fn lemma_add_proposal_args_carry_each_action(
    description: Seq<char>,
    receiver_id: Seq<char>,
    actions: Seq<ActionView>,
    i: int,
)
    requires
        0 <= i < actions.len(),
    ensures
        exists|p: int|
            holds_at(
                add_proposal_args(
                    description,
                    KindView::FunctionCall { receiver_id, actions },
                ),
                action_object(actions[i]),
                p,
            ),
{
    reveal_strlit("args");
    reveal_strlit("deposit");
    reveal_strlit("gas");
    reveal_strlit("method_name");
    reveal_strlit("{\"args\":");
    reveal_strlit(",\"deposit\":");
    reveal_strlit(",\"gas\":");
    reveal_strlit(",\"method_name\":");
    reveal_strlit("}");
    let a = actions[i];
    lemma_json_string_literal_of_key("args"@);
    lemma_json_string_literal_of_key("deposit"@);
    lemma_json_string_literal_of_key("gas"@);
    lemma_json_string_literal_of_key("method_name"@);
    assert(action_object(a) =~= action_json(a));
    let objects = actions.map_values(|x: ActionView| action_json(x));
    let q = lemma_join_holds_item(objects, ","@, i);
    let kind = KindView::FunctionCall { receiver_id, actions };
    let before = "{\"proposal\":{\"description\":"@ + json_string_literal(description)
        + ",\"kind\":"@ + "{\"FunctionCall\":{\"actions\":["@;
    let joined = join_with(objects, ","@);
    let after = "],\"receiver_id\":"@ + json_string_literal(receiver_id) + "}}"@ + "}}"@;
    let text = add_proposal_args(description, kind);
    assert(text =~= before + joined + after);
    let p: int = before.len() + q;
    assert(text.subrange(p, p + objects[i].len()) =~= joined.subrange(q, q + objects[i].len()));
    assert(holds_at(text, action_object(a), p));
}

/// The `add_proposal` arguments of a transfer proposal carry the description and the
/// `Transfer` object with the amount, a null message, the receiver and the token id, each
/// under its own key.
pub proof fn lemma_add_proposal_args_carry_transfer(
    description: Seq<char>,
    token_id: Seq<char>,
    receiver_id: Seq<char>,
    amount: Seq<char>,
)
    ensures
        holds_at(
            add_proposal_args(description, KindView::Transfer { token_id, receiver_id, amount }),
            json_string_literal("description"@) + seq![':'] + json_string_literal(description),
            13,
        ),
        exists|p: int|
            holds_at(
                add_proposal_args(description, KindView::Transfer { token_id, receiver_id, amount }),
                seq!['{'] + json_string_literal("amount"@) + seq![':'] + json_string_literal(amount)
                    + seq![','] + json_string_literal("msg"@) + ":null,"@
                    + json_string_literal("receiver_id"@) + seq![':'] + json_string_literal(
                    receiver_id,
                ) + seq![','] + json_string_literal("token_id"@) + seq![':']
                    + json_string_literal(token_id) + seq!['}'],
                p,
            ),
{
    reveal_strlit("description");
    reveal_strlit("amount");
    reveal_strlit("msg");
    reveal_strlit("receiver_id");
    reveal_strlit("token_id");
    reveal_strlit(":null,");
    reveal_strlit("{\"proposal\":{\"description\":");
    reveal_strlit(",\"kind\":");
    reveal_strlit("{\"Transfer\":{\"amount\":");
    reveal_strlit("{\"Transfer\":");
    reveal_strlit(",\"msg\":null,\"receiver_id\":");
    reveal_strlit(",\"token_id\":");
    reveal_strlit("}}");
    lemma_json_string_literal_of_key("description"@);
    lemma_json_string_literal_of_key("amount"@);
    lemma_json_string_literal_of_key("msg"@);
    lemma_json_string_literal_of_key("receiver_id"@);
    lemma_json_string_literal_of_key("token_id"@);
    let text = add_proposal_args(description, KindView::Transfer { token_id, receiver_id, amount });
    let head = "{\"proposal\":{\"description\":"@ + json_string_literal(description) + ",\"kind\":"@
        + "{\"Transfer\":"@;
    let object = seq!['{'] + json_string_literal("amount"@) + seq![':'] + json_string_literal(amount)
        + seq![','] + json_string_literal("msg"@) + ":null,"@ + json_string_literal("receiver_id"@)
        + seq![':'] + json_string_literal(receiver_id) + seq![','] + json_string_literal(
        "token_id"@,
    ) + seq![':'] + json_string_literal(token_id) + seq!['}'];
    assert(text =~= head + object + seq!['}', '}', '}']);
    let p = head.len() as int;
    assert(text.subrange(p, p + object.len()) =~= object);
    assert(holds_at(text, object, p));
    let d = json_string_literal("description"@) + seq![':'] + json_string_literal(description);
    assert(text.subrange(13, 13 + d.len() as int) =~= d);
}

/// A direct transfer names the token it moves by its `Transfer` token id: empty for
/// native NEAR, otherwise the token's contract without a `nep141:` prefix. The receiver
/// and the amount are passed through as given.
pub proof fn lemma_transfer_names_the_token(token: SimplifiedToken, receiver: Seq<char>, amount: Seq<char>)
    ensures
        transfer_kind(token, receiver, amount) matches KindView::Transfer { token_id, receiver_id, amount: a }
            && receiver_id == receiver && a == amount
            && (is_native_near(token) ==> token_id.len() == 0)
            && (!is_native_near(token) ==> match token.contract_id {
                Some(c) => if has_prefix(c@, nep141_prefix()) {
                    nep141_prefix() + token_id == c@
                } else {
                    token_id == c@
                },
                None => token_id.len() == 0,
            }),
{
    reveal_strlit("nep141:");
    if !is_native_near(token) {
        if let Some(c) = token.contract_id {
            if has_prefix(c@, nep141_prefix()) {
                assert(c@.subrange(0, 7) == nep141_prefix());
                assert(nep141_prefix() + c@.skip(7) =~= c@);
            }
        }
    }
}

/// The arguments a public intents payment moves the funds with: `amountIn` to the
/// 1Click deposit address (and, from intents, the origin asset's token id).
pub open spec fn moving_fields(
    token: SimplifiedToken,
    origin_asset: Seq<char>,
    deposit_address: Seq<char>,
    amount_in: Seq<char>,
) -> Seq<(Seq<char>, Seq<char>)> {
    if token.residency == TokenResidency::Intents {
        seq![
            ("amount"@, amount_in),
            ("receiver_id"@, deposit_address),
            ("token_id"@, origin_asset),
        ]
    } else {
        seq![("amount"@, amount_in), ("receiver_id"@, deposit_address)]
    }
}

/// In a public intents payment, whatever the token's residency, the last action moves
/// the funds: its arguments decode to the JSON object that sends `amountIn` to the
/// deposit address, with one yoctoNEAR attached. Native NEAR is first wrapped by a
/// `near_deposit` on `wrap.near` that attaches exactly `amountIn`.
pub proof fn lemma_public_intents_pays_amount_in_to_deposit_address(
    token: SimplifiedToken,
    origin_asset: Seq<char>,
    deposit_address: Seq<char>,
    amount_in: Seq<char>,
)
    ensures
        public_intents_kind(token, origin_asset, deposit_address, amount_in) matches KindView::FunctionCall {
            receiver_id,
            actions,
        } && actions.len() >= 1
            && base64_decode(actions.last().args) == vstd::utf8::encode_utf8(
            json_object_text(moving_fields(token, origin_asset, deposit_address, amount_in)),
        ) && actions.last().deposit == "1"@
            && (token.residency == TokenResidency::Intents ==> receiver_id == "intents.near"@
            && actions.last().method_name == "mt_transfer"@)
            && actions.last().gas == "150000000000000"@
            && (token.residency != TokenResidency::Intents ==> actions.last().method_name
            == "ft_transfer"@)
            && (token.residency == TokenResidency::Ft ==> receiver_id == token_id_of(token)
            && actions.len() == 1)
            && (token.residency == TokenResidency::Intents ==> actions.len() == 1)
            && (token.residency == TokenResidency::Near ==> receiver_id == "wrap.near"@
            && actions.len() == 2 && actions[0].method_name == "near_deposit"@
            && actions[0].deposit == amount_in && actions[0].gas == "10000000000000"@
            && base64_decode(actions[0].args) == vstd::utf8::encode_utf8("{}"@)),
{
    let fields = moving_fields(token, origin_asset, deposit_address, amount_in);
    lemma_base64_of_text_decodes(json_object_text(fields));
    lemma_base64_of_text_decodes(json_object_text(Seq::empty()));
    reveal_strlit("{}");
    assert(json_object_text(Seq::empty()) =~= "{}"@);
}

/// For a token the treasury holds on the NEAR chain (native NEAR or a fungible token),
/// the first destination offered is the direct transfer on the NEAR chain, whatever the
/// treasury and the bridge catalog; a confidential treasury offers it alone. A token held
/// in intents is first offered the recipient's near.com balance.
pub proof fn lemma_near_chain_tokens_offer_direct_transfer_first(
    token: SimplifiedToken,
    is_confidential: bool,
    catalog: Seq<BridgeAsset>,
)
    ensures
        token.residency != TokenResidency::Intents ==> {
            let choices = destination_choices_spec(token, is_confidential, catalog);
            &&& choices.len() >= 1
            &&& choices[0] == ("near"@, "NEAR (direct transfer on the NEAR chain)"@)
            &&& is_confidential ==> choices == seq![
                ("near"@, "NEAR (direct transfer on the NEAR chain)"@),
            ]
        },
        token.residency == TokenResidency::Intents ==> {
            let choices = destination_choices_spec(token, is_confidential, catalog);
            &&& choices.len() >= 1
            &&& choices[0] == ("near.com"@, "near.com (recipient's NEAR Intents balance)"@)
        },
{
    let choices = destination_choices_spec(token, is_confidential, catalog);
    if token.residency != TokenResidency::Intents && is_confidential {
        assert(choices =~= seq![("near"@, "NEAR (direct transfer on the NEAR chain)"@)]);
    }
}

/// The treasury pays a quote from where it holds the token: a confidential treasury from
/// its private intents balance; a public one from its intents balance exactly when the
/// token is held in intents, and from the NEAR chain (native NEAR or a fungible token)
/// otherwise. Refunds go back to the same place.
pub proof fn lemma_quote_pays_from_where_the_token_is(
    q: QuoteRequest,
    f: SendFlow,
    origin: Seq<char>,
    destination: Seq<char>,
    recipient: IntentsAccount,
    amount: Seq<char>,
)
    requires
        quote_request_of(q, f, origin, destination, recipient, amount),
    ensures
        q.refund_type == q.deposit_type,
        f.context.is_confidential ==> q.deposit_type == IntentsAccount::ConfidentialIntents,
        !f.context.is_confidential ==> (q.deposit_type == IntentsAccount::Intents
            <==> f.context.token.residency == TokenResidency::Intents),
        !f.context.is_confidential && f.context.token.residency != TokenResidency::Intents
            ==> q.deposit_type == IntentsAccount::OriginChain,
{
}

} // verus!
