use base64::Engine;
use nt_payments::asset::{BridgeAsset, BridgeNetwork, SimplifiedToken, TokenResidency};
use nt_payments::context::{Policy, PaymentTokenContext, TrezuConfig};
use nt_payments::destination::destination_choices;
use nt_payments::error::PaymentError;
use nt_payments::proposal::{ProposalKind, Quote};
use nt_payments::send::{
    add_proposal_call, proposal_deposit, quote_deadline_ms, IntentsAccount, PaymentDetails,
    PaymentSendContext, SendFlow, SendStep,
};

fn token(symbol: &str, residency: TokenResidency, contract: Option<&str>, decimals: u8) -> SimplifiedToken {
    SimplifiedToken {
        symbol: symbol.to_string(),
        residency,
        contract_id: contract.map(|c| c.to_string()),
        decimals,
        balance: "0".to_string(),
    }
}

fn context(t: SimplifiedToken, confidential: bool) -> PaymentTokenContext {
    PaymentTokenContext {
        trezu_config: TrezuConfig { account_id: Some("alice.near".to_string()) },
        treasury_id: "dao.sputnik-dao.near".to_string(),
        signer_id: "alice.near".to_string(),
        token: t,
        policy: Policy {
            proposal_bond: Some("100000000000000000000000".to_string()),
            proposal_period: Some("604800000000000".to_string()),
        },
        is_confidential: confidential,
    }
}

fn details(destination: &str, description: &str) -> PaymentDetails {
    PaymentDetails {
        amount: " 1.5 ".to_string(),
        destination_network: destination.to_string(),
        receiver: "bob.near".to_string(),
        description: description.to_string(),
    }
}

fn b64(text: &str) -> String {
    base64::engine::general_purpose::STANDARD.encode(text.as_bytes())
}

fn quote() -> Quote {
    Quote {
        deposit_address: Some("deposit.near".to_string()),
        amount_in: Some("1510000".to_string()),
        signature: Some("sig".to_string()),
        network_fee: Some("0.01".to_string()),
    }
}

#[test]
fn policy_bond_and_deadline() {
    let p = Policy {
        proposal_bond: Some("100000000000000000000000".to_string()),
        proposal_period: Some("604800000000000".to_string()),
    };
    assert_eq!(proposal_deposit(&p), 100000000000000000000000);
    assert_eq!(quote_deadline_ms(&p), 604800000);
    let p = Policy { proposal_bond: None, proposal_period: None };
    assert_eq!(proposal_deposit(&p), 0);
    assert_eq!(quote_deadline_ms(&p), 86_400_000);
    let p = Policy {
        proposal_bond: Some("a lot".to_string()),
        proposal_period: Some("-1".to_string()),
    };
    assert_eq!(proposal_deposit(&p), 0);
    assert_eq!(quote_deadline_ms(&p), 86_400_000);
}

#[test]
fn direct_transfer_of_ft() {
    let t = token("USDC", TokenResidency::Ft, Some("nep141:usdc.near"), 6);
    let step = PaymentSendContext::from_previous_context(context(t, false), details(" near ", "Rent"));
    let (flow, query) = match step {
        SendStep::NormalizeAmount(f, q) => (f, q),
        other => panic!("unexpected {:?}", other),
    };
    assert_eq!(query.ft_input, "1.5 USDC");
    assert_eq!(query.symbol, "USDC");
    assert_eq!(query.decimals, 6);
    assert_eq!(flow.destination_network, "near");
    match flow.amount_normalized("1500000".to_string()) {
        SendStep::Done(ctx) => {
            assert_eq!(ctx.description, "* Notes: Rent");
            assert_eq!(ctx.deposit, 100000000000000000000000);
            assert_eq!(ctx.signer_id, "alice.near");
            assert_eq!(ctx.treasury_id, "dao.sputnik-dao.near");
            match &ctx.kind {
                ProposalKind::Transfer { token_id, receiver_id, amount } => {
                    assert_eq!(token_id, "usdc.near");
                    assert_eq!(receiver_id, "bob.near");
                    assert_eq!(amount, "1500000");
                }
                other => panic!("unexpected {:?}", other),
            }
            let call = add_proposal_call(&ctx).unwrap();
            assert_eq!(call.method_name, "add_proposal");
            assert_eq!(call.receiver_id, "dao.sputnik-dao.near");
            assert_eq!(call.signer_id, "alice.near");
            assert_eq!(call.gas, 270_000_000_000_000);
            assert_eq!(call.deposit, 100000000000000000000000);
            assert_eq!(
                call.args_json,
                "{\"proposal\":{\"description\":\"* Notes: Rent\",\"kind\":{\"Transfer\":{\"amount\":\"1500000\",\"msg\":null,\"receiver_id\":\"bob.near\",\"token_id\":\"usdc.near\"}}}}"
            );
            let parsed: serde_json::Value = serde_json::from_str(&call.args_json).unwrap();
            assert_eq!(serde_json::to_string(&parsed).unwrap(), call.args_json);
        }
        other => panic!("unexpected {:?}", other),
    }
}

#[test]
fn direct_transfer_of_intents_token_fails() {
    let t = token("USDC", TokenResidency::Intents, Some("nep141:usdc.near"), 6);
    match PaymentSendContext::from_previous_context(context(t, false), details("near", "")) {
        SendStep::Failed(e) => {
            assert!(matches!(e, PaymentError::DirectTransferUnavailable { .. }));
            assert_eq!(
                e.message(),
                "Token USDC lives on NEAR Intents — direct NEAR transfer is not possible. Pick near.com or a bridge network instead."
            );
        }
        other => panic!("unexpected {:?}", other),
    }
}

#[test]
fn near_com_public_payment_of_native_near() {
    let t = token("NEAR", TokenResidency::Near, None, 24);
    let step = PaymentSendContext::from_previous_context(context(t, false), details("", "Salary"));
    let (flow, query) = match step {
        SendStep::NormalizeAmount(f, q) => (f, q),
        other => panic!("unexpected {:?}", other),
    };
    assert_eq!(query.decimals, 24);
    let (flow, request) = match flow.amount_normalized("1500000000000000000000000".to_string()) {
        SendStep::RequestQuote(f, r) => (f, r),
        other => panic!("unexpected {:?}", other),
    };
    assert_eq!(request.dao_id, "dao.sputnik-dao.near");
    assert_eq!(request.swap_type, "EXACT_OUTPUT");
    assert_eq!(request.origin_asset, "nep141:wrap.near");
    assert_eq!(request.destination_asset, "nep141:wrap.near");
    assert_eq!(request.deposit_type, IntentsAccount::OriginChain);
    assert_eq!(request.refund_type, IntentsAccount::OriginChain);
    assert_eq!(request.recipient_type, IntentsAccount::Intents);
    assert_eq!(request.recipient_type.wire_name(), "INTENTS");
    assert_eq!(request.deposit_type.wire_name(), "ORIGIN_CHAIN");
    assert_eq!(request.amount, "1500000000000000000000000");
    assert_eq!(request.recipient, "bob.near");
    assert_eq!(request.refund_to, "dao.sputnik-dao.near");
    assert_eq!(request.deadline_ms, 604800000);
    assert!(request.is_payment);
    assert!(!request.dry);
    match flow.quote_received(quote(), serde_json::Value::Null) {
        SendStep::Done(ctx) => {
            assert_eq!(
                ctx.description,
                "* Proposal Action: payment-transfer <br>* Notes: Salary <br>* Recipient: bob.near <br>* Network Fee: 0.01 <br>* Deposit Address: deposit.near <br>* Signature: sig"
            );
            match &ctx.kind {
                ProposalKind::FunctionCall { receiver_id, actions } => {
                    assert_eq!(receiver_id, "wrap.near");
                    assert_eq!(actions.len(), 2);
                    assert_eq!(actions[0].method_name, "near_deposit");
                    assert_eq!(actions[0].args, b64("{}"));
                    assert_eq!(actions[0].deposit, "1510000");
                    assert_eq!(actions[0].gas, "10000000000000");
                    assert_eq!(actions[1].method_name, "ft_transfer");
                    assert_eq!(
                        actions[1].args,
                        b64("{\"amount\":\"1510000\",\"receiver_id\":\"deposit.near\"}")
                    );
                    assert_eq!(actions[1].deposit, "1");
                    assert_eq!(actions[1].gas, "150000000000000");
                }
                other => panic!("unexpected {:?}", other),
            }
            let call = add_proposal_call(&ctx).unwrap();
            let parsed: serde_json::Value = serde_json::from_str(&call.args_json).unwrap();
            assert_eq!(parsed["proposal"]["kind"]["FunctionCall"]["receiver_id"], "wrap.near");
            assert_eq!(
                parsed["proposal"]["kind"]["FunctionCall"]["actions"][1]["method_name"],
                "ft_transfer"
            );
            assert_eq!(serde_json::to_string(&parsed).unwrap(), call.args_json);
        }
        other => panic!("unexpected {:?}", other),
    }
}

#[test]
fn public_payment_of_intents_token_uses_mt_transfer() {
    let t = token("USDC", TokenResidency::Intents, Some("nep141:usdc.near"), 6);
    let step = PaymentSendContext::from_previous_context(context(t, false), details("near.com", ""));
    let flow = match step {
        SendStep::NormalizeAmount(f, _) => f,
        other => panic!("unexpected {:?}", other),
    };
    let (flow, request) = match flow.amount_normalized("1500000".to_string()) {
        SendStep::RequestQuote(f, r) => (f, r),
        other => panic!("unexpected {:?}", other),
    };
    assert_eq!(request.deposit_type, IntentsAccount::Intents);
    let q = Quote { network_fee: None, signature: None, ..quote() };
    match flow.quote_received(q, serde_json::Value::Null) {
        SendStep::Done(ctx) => {
            assert_eq!(
                ctx.description,
                "* Proposal Action: payment-transfer <br>* Recipient: bob.near <br>* Destination Network: near.com <br>* Deposit Address: deposit.near"
            );
            match &ctx.kind {
                ProposalKind::FunctionCall { receiver_id, actions } => {
                    assert_eq!(receiver_id, "intents.near");
                    assert_eq!(actions.len(), 1);
                    assert_eq!(actions[0].method_name, "mt_transfer");
                    assert_eq!(
                        actions[0].args,
                        b64("{\"amount\":\"1510000\",\"receiver_id\":\"deposit.near\",\"token_id\":\"nep141:usdc.near\"}")
                    );
                }
                other => panic!("unexpected {:?}", other),
            }
        }
        other => panic!("unexpected {:?}", other),
    }
}

#[test]
fn public_payment_needs_deposit_address_then_amount_in() {
    let start = || {
        let step =
            PaymentSendContext::from_previous_context(context(usdc_ft(), false), details("near.com", ""));
        match step {
            SendStep::NormalizeAmount(f, _) => match f.amount_normalized("1".to_string()) {
                SendStep::RequestQuote(f, _) => f,
                other => panic!("unexpected {:?}", other),
            },
            other => panic!("unexpected {:?}", other),
        }
    };
    let q = Quote { deposit_address: None, amount_in: None, signature: None, network_fee: None };
    match start().quote_received(q, serde_json::Value::Null) {
        SendStep::Failed(e) => assert_eq!(e.message(), "No depositAddress in quote response"),
        other => panic!("unexpected {:?}", other),
    }
    let q = Quote { amount_in: None, ..quote() };
    match start().quote_received(q, serde_json::Value::Null) {
        SendStep::Failed(e) => assert_eq!(e.message(), "No amountIn in quote response"),
        other => panic!("unexpected {:?}", other),
    }
    match start().quote_received(quote(), serde_json::Value::Null) {
        SendStep::Done(ctx) => match &ctx.kind {
            ProposalKind::FunctionCall { receiver_id, actions } => {
                assert_eq!(receiver_id, "usdc.near");
                assert_eq!(actions[0].method_name, "ft_transfer");
            }
            other => panic!("unexpected {:?}", other),
        },
        other => panic!("unexpected {:?}", other),
    }
}

fn usdc_ft() -> SimplifiedToken {
    token("USDC", TokenResidency::Ft, Some("usdc.near"), 6)
}

fn catalog() -> Vec<BridgeAsset> {
    vec![BridgeAsset {
        name: "USDC".to_string(),
        networks: vec![
            BridgeNetwork {
                id: "nep141:usdc.near".to_string(),
                name: "NEAR".to_string(),
                symbol: "USDC".to_string(),
                decimals: 6,
            },
            BridgeNetwork {
                id: "nep141:eth-usdc.omft.near".to_string(),
                name: "Ethereum".to_string(),
                symbol: "USDC".to_string(),
                decimals: 18,
            },
        ],
    }]
}

#[test]
fn cross_chain_payment_uses_destination_decimals() {
    let t = token("USDC", TokenResidency::Ft, Some("usdc.near"), 6);
    let step = PaymentSendContext::from_previous_context(
        context(t, false),
        details("nep141:eth-usdc.omft.near", ""),
    );
    let flow = match step {
        SendStep::FetchBridgeCatalog(f) => f,
        other => panic!("unexpected {:?}", other),
    };
    let (flow, query) = match flow.bridge_catalog_received(&catalog()) {
        SendStep::NormalizeAmount(f, q) => (f, q),
        other => panic!("unexpected {:?}", other),
    };
    assert_eq!(query.decimals, 18);
    match flow.amount_normalized("1500000000000000000".to_string()) {
        SendStep::RequestQuote(_, request) => {
            assert_eq!(request.origin_asset, "nep141:usdc.near");
            assert_eq!(request.destination_asset, "nep141:eth-usdc.omft.near");
            assert_eq!(request.recipient_type, IntentsAccount::DestinationChain);
            assert_eq!(request.recipient_type.wire_name(), "DESTINATION_CHAIN");
        }
        other => panic!("unexpected {:?}", other),
    }
}

#[test]
fn cross_chain_payment_to_unknown_network_fails() {
    let t = token("USDC", TokenResidency::Ft, Some("usdc.near"), 6);
    let step = PaymentSendContext::from_previous_context(context(t, false), details("sol", ""));
    let flow = match step {
        SendStep::FetchBridgeCatalog(f) => f,
        other => panic!("unexpected {:?}", other),
    };
    match flow.bridge_catalog_received(&catalog()) {
        SendStep::Failed(e) => assert_eq!(
            e.message(),
            "Destination network 'sol' is not available for USDC (origin nep141:usdc.near)"
        ),
        other => panic!("unexpected {:?}", other),
    }
}

#[test]
fn confidential_payment_signs_a_hash() {
    let t = token("USDC", TokenResidency::Intents, Some("nep141:usdc.near"), 6);
    let step = PaymentSendContext::from_previous_context(context(t, true), details("near.com", "Secret"));
    let flow = match step {
        SendStep::NormalizeAmount(f, _) => f,
        other => panic!("unexpected {:?}", other),
    };
    let (flow, request) = match flow.amount_normalized("1".to_string()) {
        SendStep::RequestQuote(f, r) => (f, r),
        other => panic!("unexpected {:?}", other),
    };
    assert_eq!(request.deposit_type, IntentsAccount::ConfidentialIntents);
    assert_eq!(request.recipient_type, IntentsAccount::ConfidentialIntents);
    assert_eq!(request.deposit_type.wire_name(), "CONFIDENTIAL_INTENTS");
    let mut quote_members = serde_json::Map::new();
    quote_members.insert("correlationId".to_string(), serde_json::Value::String("c-1".to_string()));
    quote_members.insert("timestamp".to_string(), serde_json::Value::String("t".to_string()));
    let quote_json = serde_json::Value::Object(quote_members);
    let (flow, intent) = match flow.quote_received(quote(), quote_json) {
        SendStep::GenerateIntent(f, i) => (f, i),
        other => panic!("unexpected {:?}", other),
    };
    assert_eq!(intent.intent_type, "swap_transfer");
    assert_eq!(intent.standard, "nep413");
    assert_eq!(intent.signer_id, "dao.sputnik-dao.near");
    assert_eq!(intent.notes.as_deref(), Some("Secret"));
    let metadata = intent.quote_metadata.as_object().expect("an object");
    assert!(metadata.get("correlationId").is_none());
    assert_eq!(metadata.get("timestamp"), Some(&serde_json::Value::String("t".to_string())));
    assert_eq!(metadata.len(), 1);
    match flow.intent_generated(Some("HASH".to_string())) {
        SendStep::Done(ctx) => {
            assert_eq!(
                ctx.description,
                "* Proposal Action: confidential <br>* Notes: Confidential proposal via private intents. Details are hidden for privacy."
            );
            match &ctx.kind {
                ProposalKind::FunctionCall { receiver_id, actions } => {
                    assert_eq!(receiver_id, "v1.signer");
                    assert_eq!(actions.len(), 1);
                    assert_eq!(actions[0].method_name, "sign");
                    assert_eq!(actions[0].deposit, "1");
                    assert_eq!(actions[0].gas, "15000000000000");
                    assert_eq!(
                        actions[0].args,
                        b64("{\"request\":{\"domain_id\":1,\"path\":\"dao.sputnik-dao.near\",\"payload_v2\":{\"Eddsa\":\"HASH\"}}}")
                    );
                }
                other => panic!("unexpected {:?}", other),
            }
        }
        other => panic!("unexpected {:?}", other),
    }
}

#[test]
fn confidential_payment_without_notes_and_without_hash() {
    let t = token("USDC", TokenResidency::Intents, Some("nep141:usdc.near"), 6);
    let step = PaymentSendContext::from_previous_context(context(t, true), details("near.com", ""));
    let flow = match step {
        SendStep::NormalizeAmount(f, _) => f,
        other => panic!("unexpected {:?}", other),
    };
    let flow: SendFlow = match flow.amount_normalized("1".to_string()) {
        SendStep::RequestQuote(f, _) => f,
        other => panic!("unexpected {:?}", other),
    };
    let flow = match flow.quote_received(quote(), serde_json::Value::String("raw".to_string())) {
        SendStep::GenerateIntent(f, i) => {
            assert!(i.notes.is_none());
            assert_eq!(i.quote_metadata, serde_json::Value::String("raw".to_string()));
            f
        }
        other => panic!("unexpected {:?}", other),
    };
    match flow.intent_generated(None) {
        SendStep::Failed(e) => assert_eq!(e.message(), "No payloadHash in generate-intent response"),
        other => panic!("unexpected {:?}", other),
    }
}

#[test]
fn invalid_treasury_id_cannot_be_called() {
    let ctx = PaymentSendContext {
        signer_id: "alice.near".to_string(),
        trezu_config: TrezuConfig { account_id: None },
        treasury_id: "Not A DAO".to_string(),
        description: String::new(),
        kind: ProposalKind::Transfer {
            token_id: String::new(),
            receiver_id: "bob.near".to_string(),
            amount: "1".to_string(),
        },
        deposit: 0,
    };
    match add_proposal_call(&ctx) {
        Err(e) => {
            assert!(matches!(e, PaymentError::InvalidTreasuryId { .. }));
            assert!(e.message().starts_with("Invalid treasury ID: "));
        }
        Ok(call) => panic!("accepted {:?}", call),
    }
}

#[test]
fn every_offered_destination_is_accepted() {
    let cat = catalog();
    let t = usdc_ft();
    let choices = destination_choices(&t, false, &cat);
    assert_eq!(choices.len(), 3);
    for choice in &choices {
        let step = PaymentSendContext::from_previous_context(
            context(usdc_ft(), false),
            details(&choice.id, ""),
        );
        let step = match step {
            SendStep::FetchBridgeCatalog(flow) => flow.bridge_catalog_received(&cat),
            other => other,
        };
        match step {
            SendStep::NormalizeAmount(_, _) => {}
            other => panic!("{} refused: {:?}", choice.id, other),
        }
    }
}

#[test]
fn function_call_arguments_decode_back_to_their_object() {
    let t = token("USDC", TokenResidency::Intents, Some("nep141:usdc.near"), 6);
    let step = PaymentSendContext::from_previous_context(context(t, false), details("near.com", ""));
    let flow = match step {
        SendStep::NormalizeAmount(f, _) => f,
        other => panic!("unexpected {:?}", other),
    };
    let flow = match flow.amount_normalized("1".to_string()) {
        SendStep::RequestQuote(f, _) => f,
        other => panic!("unexpected {:?}", other),
    };
    let q = Quote {
        deposit_address: Some("dep\"osit".to_string()),
        amount_in: Some("7".to_string()),
        signature: None,
        network_fee: None,
    };
    match flow.quote_received(q, serde_json::Value::Null) {
        SendStep::Done(ctx) => match &ctx.kind {
            ProposalKind::FunctionCall { actions, .. } => {
                let bytes = base64::engine::general_purpose::STANDARD.decode(&actions[0].args).unwrap();
                let value: serde_json::Value = serde_json::from_slice(&bytes).unwrap();
                let mut expected = serde_json::Map::new();
                expected.insert("receiver_id".to_string(), serde_json::Value::String("dep\"osit".to_string()));
                expected.insert("amount".to_string(), serde_json::Value::String("7".to_string()));
                expected.insert("token_id".to_string(), serde_json::Value::String("nep141:usdc.near".to_string()));
                assert_eq!(value, serde_json::Value::Object(expected));
            }
            other => panic!("unexpected {:?}", other),
        },
        other => panic!("unexpected {:?}", other),
    }
}
