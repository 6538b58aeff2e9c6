use nt_payments::asset::{
    find_bridge_asset, normalize_near_asset_id, resolve_origin_asset, resolve_token_id, BridgeAsset,
    BridgeNetwork, SimplifiedToken, TokenResidency,
};

fn token(symbol: &str, residency: TokenResidency, contract: Option<&str>, decimals: u8) -> SimplifiedToken {
    SimplifiedToken {
        symbol: symbol.to_string(),
        residency,
        contract_id: contract.map(|c| c.to_string()),
        decimals,
        balance: "0".to_string(),
    }
}

fn network(id: &str, name: &str, symbol: &str, decimals: u8) -> BridgeNetwork {
    BridgeNetwork {
        id: id.to_string(),
        name: name.to_string(),
        symbol: symbol.to_string(),
        decimals,
    }
}

#[test]
fn origin_asset_of_native_near_is_wrapped_near() {
    let t = token("NEAR", TokenResidency::Near, None, 24);
    assert_eq!(resolve_origin_asset(&t), "nep141:wrap.near");
    let t = token("near", TokenResidency::Near, Some("ignored.near"), 24);
    assert_eq!(resolve_origin_asset(&t), "nep141:wrap.near");
}

#[test]
fn origin_asset_of_ft_gets_nep141_prefix() {
    let t = token("USDT", TokenResidency::Ft, Some("usdt.tether-token.near"), 6);
    assert_eq!(resolve_origin_asset(&t), "nep141:usdt.tether-token.near");
}

#[test]
fn origin_asset_keeps_existing_prefixes() {
    let t = token("ETH", TokenResidency::Intents, Some("nep141:eth.omft.near"), 18);
    assert_eq!(resolve_origin_asset(&t), "nep141:eth.omft.near");
    let t = token("BTC", TokenResidency::Intents, Some("nep245:v2_1.omni.hot.tg:1_abc"), 8);
    assert_eq!(resolve_origin_asset(&t), "nep245:v2_1.omni.hot.tg:1_abc");
}

#[test]
fn origin_asset_without_contract_falls_back_to_wrapped_near() {
    let t = token("wNEAR", TokenResidency::Intents, None, 24);
    assert_eq!(resolve_origin_asset(&t), "nep141:wrap.near");
}

#[test]
fn near_symbol_on_ft_residency_uses_its_contract() {
    let t = token("NEAR", TokenResidency::Ft, Some("wrap.near"), 24);
    assert_eq!(resolve_origin_asset(&t), "nep141:wrap.near");
    let t = token("NEAR", TokenResidency::Intents, Some("nep141:wrap.near"), 24);
    assert_eq!(resolve_origin_asset(&t), "nep141:wrap.near");
}

#[test]
fn token_id_of_near_is_empty() {
    let t = token("Near", TokenResidency::Near, Some("wrap.near"), 24);
    assert_eq!(resolve_token_id(&t), "");
}

#[test]
fn token_id_strips_one_nep141_prefix() {
    let t = token("USDC", TokenResidency::Ft, Some("nep141:usdc.near"), 6);
    assert_eq!(resolve_token_id(&t), "usdc.near");
    let t = token("USDC", TokenResidency::Ft, Some("nep141:nep141:usdc.near"), 6);
    assert_eq!(resolve_token_id(&t), "nep141:usdc.near");
    let t = token("USDC", TokenResidency::Ft, Some("usdc.near"), 6);
    assert_eq!(resolve_token_id(&t), "usdc.near");
    let t = token("MT", TokenResidency::Intents, Some("nep245:mt.near:1"), 6);
    assert_eq!(resolve_token_id(&t), "nep245:mt.near:1");
    let t = token("USDC", TokenResidency::Ft, None, 6);
    assert_eq!(resolve_token_id(&t), "");
}

#[test]
fn origin_asset_is_prefixed_token_id() {
    for contract in ["usdc.near", "nep141:usdc.near"] {
        let t = token("USDC", TokenResidency::Ft, Some(contract), 6);
        assert_eq!(resolve_origin_asset(&t), format!("nep141:{}", resolve_token_id(&t)));
    }
}

#[test]
fn normalize_trims_lowercases_and_strips_prefix() {
    assert_eq!(normalize_near_asset_id("  NEP141:ETH.OMFT.NEAR \n"), "eth.omft.near");
    assert_eq!(normalize_near_asset_id("nep245:Mt.Near:1"), "nep245:mt.near:1");
    assert_eq!(normalize_near_asset_id("Nep141:"), "");
    assert_eq!(normalize_near_asset_id("\u{3000}nep141:X\u{3000}"), "x");
    assert_eq!(normalize_near_asset_id(""), "");
}

#[test]
fn normalize_uses_unicode_lowercase() {
    assert_eq!(normalize_near_asset_id("ÉTH"), "éth");
}

fn catalog() -> Vec<BridgeAsset> {
    vec![
        BridgeAsset {
            name: "USDC".to_string(),
            networks: vec![
                network("nep141:usdc.near", "NEAR", "USDC", 6),
                network("nep141:eth-usdc.omft.near", "Ethereum", "USDC", 6),
            ],
        },
        BridgeAsset {
            name: "ETH".to_string(),
            networks: vec![
                network("nep141:eth.omft.near", "Ethereum", "ETH", 18),
                network("nep141:base.omft.near", "Base", "ETH", 18),
            ],
        },
        BridgeAsset {
            name: "ETH again".to_string(),
            networks: vec![network("ETH.OMFT.NEAR", "Ethereum", "ETH", 18)],
        },
    ]
}

#[test]
fn find_bridge_asset_returns_first_matching_asset() {
    let c = catalog();
    let found = find_bridge_asset(&c, "nep141:eth.omft.near").expect("an asset");
    assert_eq!(found.name, "ETH");
    let found = find_bridge_asset(&c, " NEP141:USDC.NEAR").expect("an asset");
    assert_eq!(found.name, "USDC");
    let found = find_bridge_asset(&c, "base.omft.near").expect("an asset");
    assert_eq!(found.name, "ETH");
}

#[test]
fn find_bridge_asset_without_match_is_none() {
    let c = catalog();
    assert!(find_bridge_asset(&c, "nep141:sol.omft.near").is_none());
    assert!(find_bridge_asset(&Vec::new(), "nep141:eth.omft.near").is_none());
}

#[test]
fn fungible_token_named_near_keeps_its_contract() {
    let t = token("NEAR", TokenResidency::Ft, Some("fake-near.near"), 24);
    assert_eq!(resolve_token_id(&t), "fake-near.near");
    let t = token("near", TokenResidency::Intents, Some("nep141:wrap.near"), 24);
    assert_eq!(resolve_token_id(&t), "wrap.near");
}

#[test]
fn nep141_prefix_and_ascii_case_do_not_change_lookup() {
    let c = catalog();
    for s in ["eth.omft.near", "base.omft.near ", "usdc.near", "sol.omft.near", ""] {
        let prefixed = format!("nep141:{}", s);
        let upper = s.to_ascii_uppercase();
        assert_eq!(normalize_near_asset_id(&prefixed), normalize_near_asset_id(s));
        assert_eq!(normalize_near_asset_id(&upper), normalize_near_asset_id(s));
        let name = |r: Option<&BridgeAsset>| r.map(|a| a.name.clone());
        assert_eq!(name(find_bridge_asset(&c, &prefixed)), name(find_bridge_asset(&c, s)));
        assert_eq!(name(find_bridge_asset(&c, &upper)), name(find_bridge_asset(&c, s)));
    }
}
