//! Properties that tie several functions of the library together.
use vstd::prelude::*;
use crate::asset::{
    bridge_asset_for, is_native_near, lemma_first_bridge_match_facts, nep141_prefix, nep245_prefix,
    normalized_asset_id, origin_asset_of, token_id_of, BridgeAsset, SimplifiedToken,
};
use crate::destination::{
    bridge_choices, destination_choices_spec, lemma_bridge_choice_has_network, network_near_com,
    network_near_direct, offers_intents,
};
use crate::send::{cross_chain_target, lemma_first_network_facts, route_of, Route};
use crate::text::{
    ascii_lower, ascii_upper, has_prefix, is_ascii_seq, leading_ws, lemma_trailing_ws_concat,
    lemma_ws_counts_ascii_upper, lemma_leading_ws_bound, lemma_trailing_ws_bound, lowercase_text, trailing_ws, trimmed, white_space,
};

verus! {

/// For a token other than native NEAR whose contract is not a multi-token (`nep245:`) id, the
/// 1Click origin asset is the `Transfer` token id with the `nep141:` prefix: both name
/// the same contract.
pub proof fn lemma_origin_asset_is_prefixed_token_id(token: SimplifiedToken)
    requires
        !is_native_near(token),
        token.contract_id is Some,
        !has_prefix(token.contract_id->Some_0@, nep245_prefix()),
    ensures
        origin_asset_of(token) == nep141_prefix() + token_id_of(token),
{
    reveal_strlit("nep141:");
    let c = token.contract_id->Some_0@;
    if has_prefix(c, nep141_prefix()) {
        assert(c.subrange(0, 7) == nep141_prefix());
        assert(nep141_prefix() + c.skip(7) =~= c);
    }
}

/// Every destination the prompt offers for a token is one the send step accepts with
/// the same bridge catalog: a destination that routes cross-chain (and carries no
/// surrounding white space) names a network of the token's bridge asset.
pub proof fn lemma_offered_destination_is_accepted(
    token: SimplifiedToken,
    is_confidential: bool,
    catalog: Seq<BridgeAsset>,
    k: int,
)
    requires
        0 <= k < destination_choices_spec(token, is_confidential, catalog).len(),
        trimmed(destination_choices_spec(token, is_confidential, catalog)[k].0)
            == destination_choices_spec(token, is_confidential, catalog)[k].0,
        route_of(destination_choices_spec(token, is_confidential, catalog)[k].0)
            == Route::CrossChain,
    ensures
        cross_chain_target(
            catalog,
            origin_asset_of(token),
            destination_choices_spec(token, is_confidential, catalog)[k].0,
        ) is Some,
{
    reveal_strlit("near");
    reveal_strlit("near.com");
    let origin = origin_asset_of(token);
    let choices = destination_choices_spec(token, is_confidential, catalog);
    let x = choices[k].0;
    assert(x != network_near_direct());
    assert(x != network_near_com());
    let direct: Seq<(Seq<char>, Seq<char>)> = if crate::destination::is_near_chain_token(token) {
        seq![(network_near_direct(), "NEAR (direct transfer on the NEAR chain)"@)]
    } else {
        Seq::empty()
    };
    let intents: Seq<(Seq<char>, Seq<char>)> = if offers_intents(token, is_confidential) {
        seq![(network_near_com(), "near.com (recipient's NEAR Intents balance)"@)]
    } else {
        Seq::empty()
    };
    let fixed = direct + intents;
    // The offered id is neither fixed choice, so it is a bridge choice.
    if k < fixed.len() {
        if k < direct.len() {
            assert(choices[k] == direct[k]);
        } else {
            assert(choices[k] == intents[k - direct.len()]);
        }
    }
    assert(k >= fixed.len());
    assert(offers_intents(token, is_confidential));
    lemma_first_bridge_match_facts(catalog, normalized_asset_id(origin));
    let i = bridge_asset_for(catalog, origin)->Some_0;
    let bridged = bridge_choices(catalog[i].networks@, origin);
    assert(choices == fixed + bridged);
    assert(choices[k] == bridged[k - fixed.len()]);
    lemma_bridge_choice_has_network(catalog[i].networks@, origin, k - fixed.len());
    lemma_first_network_facts(catalog[i].networks@, x);
}


/// One `nep141:` prefix does not change a normalized asset id, nor the bridge asset
/// found for it (for an ASCII id that starts with no white space and whose lowercase
/// form does not already start with `nep141:`).
pub proof fn lemma_nep141_prefix_is_ignored(s: Seq<char>, catalog: Seq<BridgeAsset>)
    requires
        is_ascii_seq(s),
        leading_ws(s) == 0,
        !has_prefix(lowercase_text(s), nep141_prefix()),
    ensures
        normalized_asset_id(nep141_prefix() + s) == normalized_asset_id(s),
        bridge_asset_for(catalog, nep141_prefix() + s) == bridge_asset_for(catalog, s),
{
    reveal_strlit("nep141:");
    let p = nep141_prefix();
    let ps = p + s;
    assert(is_ascii_seq(ps));
    assert(!white_space(ps[0]));
    assert(leading_ws(ps) == 0);
    assert(ps.skip(0) =~= ps);
    assert(s.skip(0) =~= s);
    let t = trimmed(s);
    if s.len() == 0 {
        assert(ps =~= p);
        assert(!white_space(p.last()));
        assert(trailing_ws(ps) == 0);
        assert(trimmed(ps) =~= p);
        assert(lowercase_text(p) =~= p);
        assert(lowercase_text(p).subrange(0, 7) =~= p);
        assert(lowercase_text(p).skip(7) =~= Seq::<char>::empty());
        assert(trimmed(s) =~= s);
        assert(lowercase_text(s) =~= s);
    } else {
        assert(!white_space(s[0]));
        lemma_trailing_ws_concat(p, s, 0);
        assert(trimmed(ps) =~= p + t);
        assert(is_ascii_seq(t));
        assert(is_ascii_seq(p + t));
        let lt = lowercase_text(t);
        assert(lowercase_text(p + t) =~= p + lt);
        assert((p + lt).subrange(0, 7) =~= p);
        assert((p + lt).skip(7) =~= lt);
        // The lowercase of the trimmed id is a prefix of the lowercase of the id.
        assert(lt =~= lowercase_text(s).take(t.len() as int));
        if has_prefix(lt, p) {
            assert(lowercase_text(s).subrange(0, 7) =~= lt.subrange(0, 7));
        }
    }
}

/// ASCII case does not change a normalized asset id, nor the bridge asset found for it.
pub proof fn lemma_ascii_case_is_ignored(s: Seq<char>, catalog: Seq<BridgeAsset>)
    requires
        is_ascii_seq(s),
    ensures
        normalized_asset_id(s.map_values(|c: char| ascii_upper(c))) == normalized_asset_id(s),
        bridge_asset_for(catalog, s.map_values(|c: char| ascii_upper(c))) == bridge_asset_for(
            catalog,
            s,
        ),
{
    let u = s.map_values(|c: char| ascii_upper(c));
    lemma_ws_counts_ascii_upper(s);
    let l = leading_ws(s);
    lemma_leading_ws_bound(s);
    let ss = s.skip(l as int);
    assert(is_ascii_seq(ss)) by {
        assert forall|i: int| 0 <= i < ss.len() implies (#[trigger] ss[i] as u32) < 128 by {
            assert(ss[i] == s[i + l]);
        }
    }
    assert(u.skip(l as int) =~= ss.map_values(|c: char| ascii_upper(c)));
    lemma_ws_counts_ascii_upper(ss);
    lemma_trailing_ws_bound(ss);
    let ts = trimmed(s);
    let tu = trimmed(u);
    assert(tu.len() == ts.len());
    assert forall|i: int| 0 <= i < tu.len() implies #[trigger] tu[i] == ascii_upper(ts[i]) by {
        assert(tu[i] == u[i + leading_ws(s)]);
        assert(ts[i] == s[i + leading_ws(s)]);
    }
    assert(is_ascii_seq(ts)) by {
        assert forall|i: int| 0 <= i < ts.len() implies (#[trigger] ts[i] as u32) < 128 by {
            assert(ts[i] == s[i + leading_ws(s)]);
        }
    }
    assert(is_ascii_seq(tu)) by {
        assert forall|i: int| 0 <= i < tu.len() implies (#[trigger] tu[i] as u32) < 128 by {
            assert((ts[i] as u32) < 128);
        }
    }
    assert forall|i: int| 0 <= i < ts.len() implies ascii_lower(#[trigger] tu[i]) == ascii_lower(ts[i]) by {
        assert((ts[i] as u32) < 128);
    }
    assert(lowercase_text(tu) =~= lowercase_text(ts));
}

} // verus!
