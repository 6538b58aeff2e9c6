use nt_payments::asset::{BridgeAsset, BridgeNetwork, SimplifiedToken, TokenResidency};
use nt_payments::context::{
    select_token, signer_id_from_config, symbol_of_token_option, token_option_labels,
    PaymentsTreasuryContext, TreasuryContext, TrezuConfig, TrezuContext,
};
use nt_payments::destination::{
    destination_choices, destination_for_label, destination_prompt, wants_bridge_catalog,
    DestinationChoice, DestinationPrompt,
};
use nt_payments::error::PaymentError;

fn token(symbol: &str, residency: TokenResidency, contract: Option<&str>) -> SimplifiedToken {
    SimplifiedToken {
        symbol: symbol.to_string(),
        residency,
        contract_id: contract.map(|c| c.to_string()),
        decimals: 6,
        balance: "1000".to_string(),
    }
}

fn config(account: Option<&str>) -> TrezuConfig {
    TrezuConfig { account_id: account.map(|a| a.to_string()) }
}

#[test]
fn treasury_context_from_previous_context() {
    let ctx = PaymentsTreasuryContext::from_previous_context(
        TrezuContext { config: config(Some("alice.near")) },
        "dao.sputnik-dao.near",
    );
    let inner: TreasuryContext = ctx.into();
    assert_eq!(inner.treasury_id, "dao.sputnik-dao.near");
    assert_eq!(inner.config.account_id.as_deref(), Some("alice.near"));
}

#[test]
fn signer_requires_login() {
    let r = signer_id_from_config(&config(None));
    assert!(matches!(r, Err(PaymentError::NotLoggedIn)));
    assert_eq!(
        r.unwrap_err().message(),
        "Not logged in. Run `trezu auth login` first."
    );
}

#[test]
fn signer_must_be_a_valid_account_id() {
    assert_eq!(signer_id_from_config(&config(Some("alice.near"))).unwrap(), "alice.near");
    assert_eq!(signer_id_from_config(&config(Some("0x1-b_c.d"))).unwrap(), "0x1-b_c.d");
    for bad in ["Alice.near", "a", "alice..near", ".alice", "alice.", "al ice", "ąlice.near"] {
        let r = signer_id_from_config(&config(Some(bad)));
        match r {
            Err(PaymentError::InvalidAccountId { reason }) => {
                let e = PaymentError::InvalidAccountId { reason: reason.clone() };
                assert_eq!(e.message(), format!("Invalid account ID: {}", reason));
            }
            other => panic!("{:?} accepted: {:?}", bad, other),
        }
    }
    let long = "a".repeat(65);
    assert!(signer_id_from_config(&config(Some(&long))).is_err());
    let max = "a".repeat(64);
    assert!(signer_id_from_config(&config(Some(&max))).is_ok());
}

#[test]
fn select_token_ignores_ascii_case() {
    let assets = vec![
        token("NEAR", TokenResidency::Near, None),
        token("USDC", TokenResidency::Ft, Some("usdc.near")),
        token("usdc", TokenResidency::Intents, Some("nep141:usdc.near")),
    ];
    assert_eq!(select_token(&assets, "usdc").unwrap(), 1);
    assert_eq!(select_token(&assets, "near").unwrap(), 0);
}

#[test]
fn select_token_lists_available_symbols() {
    let assets = vec![
        token("NEAR", TokenResidency::Near, None),
        token("USDC", TokenResidency::Ft, Some("usdc.near")),
    ];
    let e = select_token(&assets, "DOGE").unwrap_err();
    assert_eq!(
        e.message(),
        "Token 'DOGE' not found in treasury. Available: NEAR, USDC"
    );
}

#[test]
fn token_options_need_assets() {
    let r = token_option_labels(&Vec::new(), &Vec::new());
    assert!(matches!(r, Err(PaymentError::NoAssets)));
    assert_eq!(r.unwrap_err().message(), "No assets available in treasury.");
}

#[test]
fn token_options_show_balances_and_give_back_symbol() {
    let assets = vec![
        token("NEAR", TokenResidency::Near, None),
        token("USDC", TokenResidency::Ft, Some("usdc.near")),
    ];
    let labels =
        token_option_labels(&assets, &vec!["1.5".to_string(), "20".to_string()]).unwrap();
    assert_eq!(labels, vec!["NEAR (balance: 1.5)", "USDC (balance: 20)"]);
    assert_eq!(symbol_of_token_option(&labels[1]), "USDC");
    assert_eq!(symbol_of_token_option("NOSPACE"), "NOSPACE");
    assert_eq!(symbol_of_token_option(""), "");
}

fn network(id: &str, name: &str, symbol: &str) -> BridgeNetwork {
    BridgeNetwork {
        id: id.to_string(),
        name: name.to_string(),
        symbol: symbol.to_string(),
        decimals: 6,
    }
}

fn usdc_catalog() -> Vec<BridgeAsset> {
    vec![BridgeAsset {
        name: "USDC".to_string(),
        networks: vec![
            network("nep141:usdc.near", "NEAR", "USDC"),
            network("nep141:eth-usdc.omft.near", "Ethereum", "USDC"),
            network("nep141:sol-usdc.omft.near", "Solana", "USDC"),
        ],
    }]
}

fn ids(choices: &[DestinationChoice]) -> Vec<String> {
    choices.iter().map(|c| c.id.clone()).collect()
}

#[test]
fn public_ft_token_gets_every_destination() {
    let t = token("USDC", TokenResidency::Ft, Some("usdc.near"));
    assert!(wants_bridge_catalog(&t, false));
    let choices = destination_choices(&t, false, &usdc_catalog());
    assert_eq!(
        ids(&choices),
        vec![
            "near",
            "near.com",
            "nep141:eth-usdc.omft.near",
            "nep141:sol-usdc.omft.near"
        ]
    );
    assert_eq!(choices[0].label, "NEAR (direct transfer on the NEAR chain)");
    assert_eq!(choices[1].label, "near.com (recipient's NEAR Intents balance)");
    assert_eq!(
        choices[2].label,
        "Ethereum — USDC (nep141:eth-usdc.omft.near)"
    );
}

#[test]
fn confidential_ft_token_only_goes_direct() {
    let t = token("USDC", TokenResidency::Ft, Some("usdc.near"));
    assert!(!wants_bridge_catalog(&t, true));
    let choices = destination_choices(&t, true, &usdc_catalog());
    assert_eq!(ids(&choices), vec!["near"]);
    match destination_prompt(&t, &choices).unwrap() {
        DestinationPrompt::Chosen(id) => assert_eq!(id, "near"),
        other => panic!("unexpected {:?}", other),
    }
}

#[test]
fn confidential_intents_token_gets_intents_destinations() {
    let t = token("USDC", TokenResidency::Intents, Some("nep141:usdc.near"));
    assert!(wants_bridge_catalog(&t, true));
    let choices = destination_choices(&t, true, &usdc_catalog());
    assert_eq!(
        ids(&choices),
        vec!["near.com", "nep141:eth-usdc.omft.near", "nep141:sol-usdc.omft.near"]
    );
}

#[test]
fn missing_catalog_leaves_near_destinations() {
    let t = token("USDC", TokenResidency::Ft, Some("usdc.near"));
    let choices = destination_choices(&t, false, &Vec::new());
    assert_eq!(ids(&choices), vec!["near", "near.com"]);
}

#[test]
fn no_destination_is_an_error() {
    let t = token("USDC", TokenResidency::Intents, Some("nep141:usdc.near"));
    let e = destination_prompt(&t, &Vec::new()).unwrap_err();
    assert!(matches!(e, PaymentError::NoDestinationNetworks { .. }));
    assert_eq!(e.message(), "No destination networks available for token USDC");
}

#[test]
fn several_destinations_are_asked_and_resolved_by_label() {
    let t = token("USDC", TokenResidency::Ft, Some("usdc.near"));
    let choices = destination_choices(&t, false, &usdc_catalog());
    match destination_prompt(&t, &choices).unwrap() {
        DestinationPrompt::Ask(labels) => {
            assert_eq!(labels.len(), 4);
            assert_eq!(destination_for_label(&choices, &labels[3]), "nep141:sol-usdc.omft.near");
            assert_eq!(destination_for_label(&choices, &labels[1]), "near.com");
        }
        other => panic!("unexpected {:?}", other),
    }
}
