//! The destination networks a payment can be sent to, as the destination prompt
//! offers them.
use vstd::prelude::*;
use crate::asset::{
    bridge_asset_for, find_bridge_asset, normalize_near_asset_id,
    normalized_asset_id, origin_asset_of, resolve_origin_asset, BridgeAsset, BridgeNetwork,
    SimplifiedToken, TokenResidency,
};
use crate::error::PaymentError;
use crate::text::str_equal;

verus! {

/// Destination id of a direct transfer on the NEAR chain.
pub open spec fn network_near_direct() -> Seq<char> {
    "near"@
}

/// Destination id of the recipient's NEAR Intents (near.com) balance.
pub open spec fn network_near_com() -> Seq<char> {
    "near.com"@
}

pub open spec fn is_near_chain_token(token: SimplifiedToken) -> bool {
    token.residency == TokenResidency::Near || token.residency == TokenResidency::Ft
}

pub open spec fn is_intents_token(token: SimplifiedToken) -> bool {
    token.residency == TokenResidency::Intents
}

/// Whether intents destinations (near.com and the bridge networks) are offered: for a
/// token already in intents, or for a public treasury.
pub open spec fn offers_intents(token: SimplifiedToken, is_confidential: bool) -> bool {
    is_intents_token(token) || !is_confidential
}

/// One choice of the destination prompt.
#[derive(Debug)]
pub struct DestinationChoice {
    /// The destination network id handed to the send step.
    pub id: String,
    /// The text shown in the prompt.
    pub label: String,
}

pub open spec fn choice_view(c: DestinationChoice) -> (Seq<char>, Seq<char>) {
    (c.id@, c.label@)
}

/// The label of a bridge network.
pub open spec fn bridge_label(network: BridgeNetwork) -> Seq<char> {
    network.name@ + " — "@ + network.symbol@ + " ("@ + network.id@ + ")"@
}

/// The bridge networks of an asset, without the one the token already lives on.
pub open spec fn bridge_choices(networks: Seq<BridgeNetwork>, origin_asset: Seq<char>) -> Seq<
    (Seq<char>, Seq<char>),
>
    decreases networks.len(),
{
    if networks.len() == 0 {
        Seq::empty()
    } else {
        let rest = bridge_choices(networks.drop_last(), origin_asset);
        let n = networks.last();
        if normalized_asset_id(n.id@) == normalized_asset_id(origin_asset) {
            rest
        } else {
            rest.push((n.id@, bridge_label(n)))
        }
    }
}

/// Every choice a prompt offers for `token`, given the bridge catalog as fetched.
pub open spec fn destination_choices_spec(
    token: SimplifiedToken,
    is_confidential: bool,
    catalog: Seq<BridgeAsset>,
) -> Seq<(Seq<char>, Seq<char>)> {
    let origin = origin_asset_of(token);
    let direct: Seq<(Seq<char>, Seq<char>)> = if is_near_chain_token(token) {
        seq![(network_near_direct(), "NEAR (direct transfer on the NEAR chain)"@)]
    } else {
        Seq::empty()
    };
    let intents: Seq<(Seq<char>, Seq<char>)> = if offers_intents(token, is_confidential) {
        seq![(network_near_com(), "near.com (recipient's NEAR Intents balance)"@)]
    } else {
        Seq::empty()
    };
    let bridged: Seq<(Seq<char>, Seq<char>)> = if offers_intents(token, is_confidential) {
        match bridge_asset_for(catalog, origin) {
            Some(i) => bridge_choices(catalog[i].networks@, origin),
            None => Seq::empty(),
        }
    } else {
        Seq::empty()
    };
    direct + intents + bridged
}

/// Whether the bridge catalog is read to offer cross-chain destinations.
pub fn wants_bridge_catalog(token: &SimplifiedToken, is_confidential: bool) -> (r: bool)
    ensures
        r == offers_intents(*token, is_confidential),
{
    token.residency == TokenResidency::Intents || !is_confidential
}

fn push_bridge_choices(
    out: &mut Vec<DestinationChoice>,
    networks: &Vec<BridgeNetwork>,
    origin_asset: &str,
)
    ensures
        final(out)@.map_values(|c: DestinationChoice| choice_view(c)) == old(out)@.map_values(
            |c: DestinationChoice| choice_view(c),
        ) + bridge_choices(networks@, origin_asset@),
{
    let ghost start = old(out)@.map_values(|c: DestinationChoice| choice_view(c));
    let origin_normalized = normalize_near_asset_id(origin_asset);
    let n = networks.len();
    assert(networks@.take(0) =~= Seq::<BridgeNetwork>::empty());
    assert(start + bridge_choices(networks@.take(0), origin_asset@) =~= start);
    for i in 0..n
        invariant
            n == networks@.len(),
            origin_normalized@ == normalized_asset_id(origin_asset@),
            start == old(out)@.map_values(|c: DestinationChoice| choice_view(c)),
            out@.map_values(|c: DestinationChoice| choice_view(c)) == start + bridge_choices(
                networks@.take(i as int),
                origin_asset@,
            ),
    {
        let network = &networks[i];
        proof {
            assert(networks@.take(i + 1).drop_last() =~= networks@.take(i as int));
            assert(networks@.take(i + 1).last() == networks@[i as int]);
        }
        let id_normalized = normalize_near_asset_id(network.id.as_str());
        if !str_equal(id_normalized.as_str(), origin_normalized.as_str()) {
            let mut label = String::from_str(network.name.as_str());
            label.append(" — ");
            label.append(network.symbol.as_str());
            label.append(" (");
            label.append(network.id.as_str());
            label.append(")");
            let ghost before = out@.map_values(|c: DestinationChoice| choice_view(c));
            out.push(DestinationChoice { id: network.id.clone(), label });
            assert(out@.map_values(|c: DestinationChoice| choice_view(c)) =~= before.push(
                (network.id@, bridge_label(*network)),
            ));
        }
    }
    assert(networks@.take(n as int) =~= networks@);
}

/// The destinations offered for `token`: direct NEAR transfer for a token on the NEAR
/// chain; near.com and the networks of the token's bridge asset (other than the one it
/// is on) for an intents token or a public treasury. `catalog` is the bridge catalog as
/// fetched (empty when it could not be fetched); it is only read when intents
/// destinations are offered.
pub fn destination_choices(
    token: &SimplifiedToken,
    is_confidential: bool,
    catalog: &Vec<BridgeAsset>,
) -> (r: Vec<DestinationChoice>)
    ensures
        r@.map_values(|c: DestinationChoice| choice_view(c)) == destination_choices_spec(
            *token,
            is_confidential,
            catalog@,
        ),
{
    let mut out: Vec<DestinationChoice> = Vec::new();
    let is_near_chain = token.residency == TokenResidency::Near || token.residency
        == TokenResidency::Ft;
    let with_intents = wants_bridge_catalog(token, is_confidential);
    if is_near_chain {
        out.push(
            DestinationChoice {
                id: String::from_str("near"),
                label: String::from_str("NEAR (direct transfer on the NEAR chain)"),
            },
        );
    }
    if with_intents {
        out.push(
            DestinationChoice {
                id: String::from_str("near.com"),
                label: String::from_str("near.com (recipient's NEAR Intents balance)"),
            },
        );
    }
    let ghost fixed = out@.map_values(|c: DestinationChoice| choice_view(c));
    if with_intents {
        let origin_asset = resolve_origin_asset(token);
        match find_bridge_asset(catalog, origin_asset.as_str()) {
            Some(asset) => {
                push_bridge_choices(&mut out, &asset.networks, origin_asset.as_str());
            },
            None => {},
        }
    }
    assert(out@.map_values(|c: DestinationChoice| choice_view(c)) =~= destination_choices_spec(
        *token,
        is_confidential,
        catalog@,
    ));
    out
}

/// What the destination prompt does with the choices.
#[derive(Debug)]
pub enum DestinationPrompt {
    /// A single destination: taken without asking.
    Chosen(String),
    /// Several destinations: the user picks one of these labels.
    Ask(Vec<String>),
}

/// No choice is an error; a single one is taken; otherwise the user is asked.
pub fn destination_prompt(token: &SimplifiedToken, choices: &Vec<DestinationChoice>) -> (r: Result<
    DestinationPrompt,
    PaymentError,
>)
    ensures
        choices@.len() == 0 ==> (r matches Err(PaymentError::NoDestinationNetworks { symbol })
            && symbol@ == token.symbol@),
        choices@.len() == 1 ==> (r matches Ok(DestinationPrompt::Chosen(id)) && id@
            == choices@[0].id@),
        choices@.len() > 1 ==> (r matches Ok(DestinationPrompt::Ask(labels)) && labels@.map_values(
            |l: String| l@,
        ) == choices@.map_values(|c: DestinationChoice| c.label@)),
{
    let n = choices.len();
    if n == 0 {
        return Err(PaymentError::NoDestinationNetworks { symbol: token.symbol.clone() });
    }
    if n == 1 {
        return Ok(DestinationPrompt::Chosen(choices[0].id.clone()));
    }
    let mut labels: Vec<String> = Vec::new();
    for i in 0..n
        invariant
            n == choices@.len(),
            labels@.map_values(|l: String| l@) == choices@.take(i as int).map_values(
                |c: DestinationChoice| c.label@,
            ),
    {
        let ghost before = labels@;
        labels.push(choices[i].label.clone());
        proof {
            let lhs = labels@.map_values(|l: String| l@);
            let rhs = choices@.take(i + 1).map_values(|c: DestinationChoice| c.label@);
            assert(before.map_values(|l: String| l@).len() == i);
            assert forall|j: int| 0 <= j < i + 1 implies lhs[j] == rhs[j] by {
                if j < i {
                    assert(before.map_values(|l: String| l@)[j] == choices@.take(
                        i as int,
                    ).map_values(|c: DestinationChoice| c.label@)[j]);
                }
            }
            assert(lhs =~= rhs);
        }
    }
    assert(choices@.take(n as int) =~= choices@);
    Ok(DestinationPrompt::Ask(labels))
}

/// The destination id of the first choice whose label is `selection`.
pub fn destination_for_label(choices: &Vec<DestinationChoice>, selection: &str) -> (r: String)
    requires
        exists|i: int| 0 <= i < choices@.len() && (#[trigger] choices@[i]).label@ == selection@,
    ensures
        exists|i: int|
            0 <= i < choices@.len() && (#[trigger] choices@[i]).label@ == selection@ && r@
                == choices@[i].id@ && forall|k: int|
                0 <= k < i ==> (#[trigger] choices@[k]).label@ != selection@,
{
    let n = choices.len();
    let mut i: usize = 0;
    while i < n
        invariant
            n == choices@.len(),
            i <= n,
            forall|k: int| 0 <= k < i ==> (#[trigger] choices@[k]).label@ != selection@,
            exists|j: int| 0 <= j < choices@.len() && (#[trigger] choices@[j]).label@ == selection@,
        decreases n - i,
    {
        if str_equal(choices[i].label.as_str(), selection) {
            return choices[i].id.clone();
        }
        i = i + 1;
    }
    proof {
        let j = choose|j: int| 0 <= j < choices@.len() && (#[trigger] choices@[j]).label@ == selection@;
        assert(choices@[j].label@ != selection@);
    }
    String::new()
}

/// Every bridge choice names a network of the asset, by that network's own id, and
/// that network is not the one the token already lives on (their ids differ once
/// normalized).
pub proof fn lemma_bridge_choice_has_network(
    networks: Seq<BridgeNetwork>,
    origin_asset: Seq<char>,
    k: int,
)
    requires
        0 <= k < bridge_choices(networks, origin_asset).len(),
    ensures
        exists|j: int|
            0 <= j < networks.len() && (#[trigger] networks[j]).id@ == bridge_choices(
                networks,
                origin_asset,
            )[k].0 && normalized_asset_id(networks[j].id@) != normalized_asset_id(origin_asset),
    decreases networks.len(),
{
    let rest = bridge_choices(networks.drop_last(), origin_asset);
    if k < rest.len() {
        lemma_bridge_choice_has_network(networks.drop_last(), origin_asset, k);
        let j = choose|j: int|
            0 <= j < networks.drop_last().len() && (#[trigger] networks.drop_last()[j]).id@
                == rest[k].0 && normalized_asset_id(networks.drop_last()[j].id@)
                != normalized_asset_id(origin_asset);
        assert(networks[j] == networks.drop_last()[j]);
    } else {
        assert(networks[networks.len() - 1] == networks.last());
    }
}

} // verus!
