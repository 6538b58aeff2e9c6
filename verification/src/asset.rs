//! Treasury tokens and the asset identifiers the 1Click intents service and the
//! Sputnik `Transfer` proposal kind use for them.
use vstd::prelude::*;
use crate::text::{
    eq_ignore_ascii_case, eq_ignore_ascii_case_spec, has_prefix, starts_with, str_equal, strip_prefix,
    lowercase_text, to_lowercase, trim, trimmed,
};

verus! {

/// Where a treasury token lives.
#[derive(Debug, Clone, Copy, PartialEq, Eq, Structural)]
pub enum TokenResidency {
    /// Native NEAR on the NEAR chain.
    Near,
    /// A fungible-token contract on the NEAR chain.
    Ft,
    /// A balance inside the NEAR Intents contract.
    Intents,
}

/// A token held by the treasury.
#[derive(Debug)]
pub struct SimplifiedToken {
    pub symbol: String,
    pub residency: TokenResidency,
    pub contract_id: Option<String>,
    pub decimals: u8,
    /// Raw balance, in the token's smallest unit.
    pub balance: String,
}

/// One destination network of a bridge asset in the 1Click catalog.
#[derive(Debug)]
pub struct BridgeNetwork {
    pub id: String,
    pub name: String,
    pub symbol: String,
    pub decimals: u8,
}

/// An asset of the 1Click bridge catalog with the networks it can be delivered on.
#[derive(Debug)]
pub struct BridgeAsset {
    pub name: String,
    pub networks: Vec<BridgeNetwork>,
}

pub open spec fn nep141_prefix() -> Seq<char> {
    "nep141:"@
}

pub open spec fn nep245_prefix() -> Seq<char> {
    "nep245:"@
}

/// The intents asset id of wrapped NEAR.
pub open spec fn wrap_near_asset() -> Seq<char> {
    "nep141:wrap.near"@
}

pub open spec fn is_near_symbol(symbol: Seq<char>) -> bool {
    eq_ignore_ascii_case_spec(symbol, "NEAR"@)
}

/// Native NEAR: the NEAR symbol (in any ASCII case) held on the NEAR chain itself.
pub open spec fn is_native_near(token: SimplifiedToken) -> bool {
    is_near_symbol(token.symbol@) && token.residency == TokenResidency::Near
}

/// The 1Click origin asset id of a treasury token.
pub open spec fn origin_asset_of(token: SimplifiedToken) -> Seq<char> {
    if is_native_near(token) {
        wrap_near_asset()
    } else {
        match token.contract_id {
            Some(c) => if has_prefix(c@, nep141_prefix()) || has_prefix(c@, nep245_prefix()) {
                c@
            } else {
                nep141_prefix() + c@
            },
            None => wrap_near_asset(),
        }
    }
}

/// The `token_id` of a Sputnik `Transfer`: empty for native NEAR, otherwise the bare
/// contract account.
pub open spec fn token_id_of(token: SimplifiedToken) -> Seq<char> {
    if is_native_near(token) {
        Seq::empty()
    } else {
        match token.contract_id {
            Some(c) => if has_prefix(c@, nep141_prefix()) {
                c@.skip(7)
            } else {
                c@
            },
            None => Seq::empty(),
        }
    }
}

/// An asset id as it is compared: trimmed, lowercased, without one `nep141:` prefix.
pub open spec fn normalized_asset_id(value: Seq<char>) -> Seq<char> {
    let n = lowercase_text(trimmed(value));
    if has_prefix(n, nep141_prefix()) {
        n.skip(7)
    } else {
        n
    }
}

/// Map a treasury token to its 1Click intents origin asset id.
pub fn resolve_origin_asset(token: &SimplifiedToken) -> (r: String)
    ensures
        r@ == origin_asset_of(*token),
        has_prefix(r@, nep141_prefix()) || has_prefix(r@, nep245_prefix()),
{
    proof {
        reveal_strlit("nep141:");
        reveal_strlit("nep245:");
        reveal_strlit("nep141:wrap.near");
        assert(wrap_near_asset().subrange(0, 7) =~= nep141_prefix());
    }
    if eq_ignore_ascii_case(token.symbol.as_str(), "NEAR") && token.residency
        == TokenResidency::Near {
        return String::from_str("nep141:wrap.near");
    }
    match &token.contract_id {
        Some(c) => {
            if starts_with(c.as_str(), "nep141:") || starts_with(c.as_str(), "nep245:") {
                c.clone()
            } else {
                let mut s = String::from_str("nep141:");
                s.append(c.as_str());
                assert(s@.subrange(0, 7) =~= nep141_prefix());
                s
            }
        },
        None => String::from_str("nep141:wrap.near"),
    }
}

/// Sputnik `Transfer` token id: "" for native NEAR, bare contract otherwise.
pub fn resolve_token_id(token: &SimplifiedToken) -> (r: String)
    ensures
        r@ == token_id_of(*token),
{
    proof {
        reveal_strlit("nep141:");
    }
    if eq_ignore_ascii_case(token.symbol.as_str(), "NEAR") && token.residency
        == TokenResidency::Near {
        return String::new();
    }
    match &token.contract_id {
        Some(c) => match strip_prefix(c.as_str(), "nep141:") {
            Some(rest) => String::from_str(rest),
            None => c.clone(),
        },
        None => String::new(),
    }
}

/// Strip the `nep141:` prefix (after trimming and lowercasing) for id matching.
pub fn normalize_near_asset_id(value: &str) -> (r: String)
    ensures
        r@ == normalized_asset_id(value@),
{
    proof {
        reveal_strlit("nep141:");
    }
    let normalized = to_lowercase(trim(value));
    match strip_prefix(normalized.as_str(), "nep141:") {
        Some(rest) => String::from_str(rest),
        None => normalized,
    }
}

/// Whether one of the asset's networks has the (normalized) id `needle`.
pub open spec fn asset_has_network(asset: BridgeAsset, needle: Seq<char>) -> bool {
    exists|j: int|
        0 <= j < asset.networks@.len() && normalized_asset_id(
            #[trigger] asset.networks@[j].id@,
        ) == needle
}

/// Index of the first asset with a network whose normalized id is `needle`.
pub open spec fn first_bridge_match(assets: Seq<BridgeAsset>, needle: Seq<char>) -> Option<int>
    decreases assets.len(),
{
    if assets.len() == 0 {
        None
    } else {
        match first_bridge_match(assets.drop_last(), needle) {
            Some(i) => Some(i),
            None => if asset_has_network(assets.last(), needle) {
                Some(assets.len() - 1)
            } else {
                None
            },
        }
    }
}

/// The bridge asset of the catalog that carries `origin_asset`.
pub open spec fn bridge_asset_for(assets: Seq<BridgeAsset>, origin_asset: Seq<char>) -> Option<
    int,
> {
    first_bridge_match(assets, normalized_asset_id(origin_asset))
}

/// The asset `first_bridge_match` finds carries the id, and no earlier one does; it
/// finds none only when no asset carries it.
pub proof fn lemma_first_bridge_match_facts(assets: Seq<BridgeAsset>, needle: Seq<char>)
    ensures
        match first_bridge_match(assets, needle) {
            Some(i) => {
                &&& 0 <= i < assets.len()
                &&& asset_has_network(assets[i], needle)
                &&& forall|k: int| 0 <= k < i ==> !asset_has_network(#[trigger] assets[k], needle)
            },
            None => forall|k: int|
                0 <= k < assets.len() ==> !asset_has_network(#[trigger] assets[k], needle),
        },
    decreases assets.len(),
{
    if assets.len() > 0 {
        let p = assets.drop_last();
        lemma_first_bridge_match_facts(p, needle);
        match first_bridge_match(p, needle) {
            Some(i) => {
                assert(p[i] == assets[i]);
                assert forall|k: int| 0 <= k < i implies !asset_has_network(
                    #[trigger] assets[k],
                    needle,
                ) by {
                    assert(p[k] == assets[k]);
                }
            },
            None => {
                assert forall|k: int|
                    0 <= k < assets.len() - 1 implies !asset_has_network(
                    #[trigger] assets[k],
                    needle,
                ) by {
                    assert(p[k] == assets[k]);
                }
            },
        }
    }
}

proof fn lemma_first_bridge_match_prefix(assets: Seq<BridgeAsset>, needle: Seq<char>, k: int)
    requires
        0 <= k <= assets.len(),
        first_bridge_match(assets.take(k), needle) is Some,
    ensures
        first_bridge_match(assets, needle) == first_bridge_match(assets.take(k), needle),
    decreases assets.len(),
{
    if k < assets.len() {
        assert(assets.drop_last().take(k) =~= assets.take(k));
        lemma_first_bridge_match_prefix(assets.drop_last(), needle, k);
    } else {
        assert(assets.take(k) =~= assets);
    }
}

/// Whether `asset` has a network whose normalized id is `needle`.
fn has_network_with_id(asset: &BridgeAsset, needle: &str) -> (r: bool)
    ensures
        r == asset_has_network(*asset, needle@),
{
    let n = asset.networks.len();
    for j in 0..n
        invariant
            n == asset.networks@.len(),
            forall|k: int|
                0 <= k < j ==> normalized_asset_id(#[trigger] asset.networks@[k].id@) != needle@,
    {
        let id = normalize_near_asset_id(asset.networks[j].id.as_str());
        if str_equal(id.as_str(), needle) {
            return true;
        }
    }
    false
}

/// The first catalog asset that lists a network matching the origin asset id.
pub fn find_bridge_asset<'a>(assets: &'a Vec<BridgeAsset>, origin_asset: &str) -> (r: Option<
    &'a BridgeAsset,
>)
    ensures
        match bridge_asset_for(assets@, origin_asset@) {
            Some(i) => r == Some(&assets@[i]),
            None => r is None,
        },
{
    let needle = normalize_near_asset_id(origin_asset);
    let n = assets.len();
    assert(assets@.take(0) =~= Seq::<BridgeAsset>::empty());
    for i in 0..n
        invariant
            n == assets@.len(),
            needle@ == normalized_asset_id(origin_asset@),
            first_bridge_match(assets@.take(i as int), needle@) is None,
    {
        let found = has_network_with_id(&assets[i], needle.as_str());
        proof {
            assert(assets@.take(i + 1).drop_last() =~= assets@.take(i as int));
            assert(assets@.take(i + 1).last() == assets@[i as int]);
        }
        if found {
            proof {
                lemma_first_bridge_match_prefix(assets@, needle@, i + 1);
            }
            return Some(&assets[i]);
        }
    }
    assert(assets@.take(n as int) =~= assets@);
    None
}

} // verus!
