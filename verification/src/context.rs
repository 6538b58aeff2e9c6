//! The contexts the `payments` commands pass along: the treasury, the signer, the
//! token to pay with, and the treasury policy.
use vstd::prelude::*;
use crate::asset::SimplifiedToken;
use crate::error::PaymentError;
use crate::text::{before_first_space, chars_of, eq_ignore_ascii_case, eq_ignore_ascii_case_spec};

verus! {

/// Separators allowed between the parts of a NEAR account id.
pub open spec fn is_account_separator(c: char) -> bool {
    c == '-' || c == '_' || c == '.'
}

pub open spec fn is_account_char(c: char) -> bool {
    ('a' <= c && c <= 'z') || ('0' <= c && c <= '9') || is_account_separator(c)
}

/// A valid NEAR account id: 2 to 64 characters from `a-z`, `0-9`, `-`, `_`, `.`, not
/// starting or ending with a separator, and with no two separators in a row.
pub open spec fn valid_account_id(s: Seq<char>) -> bool {
    &&& 2 <= s.len() <= 64
    &&& forall|i: int| 0 <= i < s.len() ==> is_account_char(#[trigger] s[i])
    &&& !is_account_separator(s[0])
    &&& !is_account_separator(s[s.len() - 1])
    &&& forall|i: int|
        0 <= i < s.len() - 1 ==> !(is_account_separator(#[trigger] s[i]) && is_account_separator(
            s[i + 1],
        ))
}

/// The `Display` text of the error `near-account-id` gives when it refuses `s` (the
/// kind of the fault and, for a bad character, the character and its index).
pub uninterp spec fn account_id_error_text(s: Seq<char>) -> Seq<char>;

/// Calls `str::parse::<near_primitives::types::AccountId>` (the validation of
/// `near-account-id`). It accepts exactly the ids of `valid_account_id` (its byte
/// length test agrees with the character count, as every accepted character is ASCII)
/// and keeps the text as it is; the error is returned as its `Display` text, named
/// `account_id_error_text`.
#[verifier::external_body]
pub(crate) fn parse_account_id(s: &str) -> (r: Result<String, String>)
    ensures
        r is Ok <==> valid_account_id(s@),
        r matches Ok(id) ==> id@ == s@,
        r matches Err(e) ==> e@ == account_id_error_text(s@),
{
    match s.parse::<near_primitives::types::AccountId>() {
        Ok(id) => Ok(id.to_string()),
        Err(e) => Err(e.to_string()),
    }
}

/// The CLI configuration, as far as payments read it.
#[derive(Debug)]
pub struct TrezuConfig {
    /// The logged-in account, if any.
    pub account_id: Option<String>,
}

/// The context every command starts from.
#[derive(Debug)]
pub struct TrezuContext {
    pub config: TrezuConfig,
}

/// The context of a command on one treasury.
#[derive(Debug)]
pub struct TreasuryContext {
    pub config: TrezuConfig,
    pub treasury_id: String,
}

/// The context of the `payments` command.
#[derive(Debug)]
pub struct PaymentsTreasuryContext(pub TreasuryContext);

impl PaymentsTreasuryContext {
    /// Enters the treasury chosen on the command line.
    pub fn from_previous_context(previous_context: TrezuContext, treasury_id: &str) -> (r: Self)
        ensures
            r.0.config == previous_context.config,
            r.0.treasury_id@ == treasury_id@,
    {
        PaymentsTreasuryContext(
            TreasuryContext {
                config: previous_context.config,
                treasury_id: String::from_str(treasury_id),
            },
        )
    }
}

impl From<PaymentsTreasuryContext> for TreasuryContext {
    fn from(item: PaymentsTreasuryContext) -> (r: Self) {
        item.0
    }
}

impl vstd::std_specs::convert::FromSpecImpl<PaymentsTreasuryContext> for TreasuryContext {
    open spec fn obeys_from_spec() -> bool {
        true
    }

    open spec fn from_spec(item: PaymentsTreasuryContext) -> Self {
        item.0
    }
}

/// The governance policy of a treasury, as far as payments read it.
#[derive(Debug)]
pub struct Policy {
    /// Bond attached to a new proposal, in yoctoNEAR.
    pub proposal_bond: Option<String>,
    /// How long a proposal can be voted on, in nanoseconds.
    pub proposal_period: Option<String>,
}

/// The signer of a payment: the logged-in account, which must be a valid account id.
pub open spec fn signer_result(config: TrezuConfig) -> Option<Seq<char>> {
    match config.account_id {
        Some(a) => if valid_account_id(a@) {
            Some(a@)
        } else {
            None
        },
        None => None,
    }
}

/// The account that signs the payment proposal: the logged-in account.
pub fn signer_id_from_config(config: &TrezuConfig) -> (r: Result<String, PaymentError>)
    ensures
        match config.account_id {
            None => r == Err::<String, PaymentError>(PaymentError::NotLoggedIn),
            Some(a) => if valid_account_id(a@) {
                r matches Ok(id) && id@ == a@
            } else {
                r matches Err(PaymentError::InvalidAccountId { reason }) && reason@
                    == account_id_error_text(a@)
            },
        },
{
    match &config.account_id {
        None => Err(PaymentError::NotLoggedIn),
        Some(account_id) => match parse_account_id(account_id.as_str()) {
            Ok(id) => Ok(id),
            Err(reason) => Err(PaymentError::InvalidAccountId { reason }),
        },
    }
}

/// Index of the first token whose symbol equals `query` up to ASCII case.
pub open spec fn first_token_match(tokens: Seq<SimplifiedToken>, query: Seq<char>) -> Option<int>
    decreases tokens.len(),
{
    if tokens.len() == 0 {
        None
    } else {
        match first_token_match(tokens.drop_last(), query) {
            Some(i) => Some(i),
            None => if eq_ignore_ascii_case_spec(tokens.last().symbol@, query) {
                Some(tokens.len() - 1)
            } else {
                None
            },
        }
    }
}

proof fn lemma_first_token_match_prefix(tokens: Seq<SimplifiedToken>, query: Seq<char>, k: int)
    requires
        0 <= k <= tokens.len(),
        first_token_match(tokens.take(k), query) is Some,
    ensures
        first_token_match(tokens, query) == first_token_match(tokens.take(k), query),
    decreases tokens.len(),
{
    if k < tokens.len() {
        assert(tokens.drop_last().take(k) =~= tokens.take(k));
        lemma_first_token_match_prefix(tokens.drop_last(), query, k);
    } else {
        assert(tokens.take(k) =~= tokens);
    }
}

/// The symbols of the treasury tokens, in order.
pub open spec fn token_symbols(tokens: Seq<SimplifiedToken>) -> Seq<Seq<char>> {
    tokens.map_values(|t: SimplifiedToken| t.symbol@)
}

/// The treasury token the user asked for: the first whose symbol matches ignoring
/// ASCII case, or an error listing the symbols there are.
pub fn select_token(assets: &Vec<SimplifiedToken>, token: &str) -> (r: Result<usize, PaymentError>)
    ensures
        match first_token_match(assets@, token@) {
            Some(i) => r == Ok::<usize, PaymentError>(i as usize),
            None => r matches Err(PaymentError::TokenNotFound { token: t, available }) && t@
                == token@ && available@.map_values(|s: String| s@) == token_symbols(assets@),
        },
{
    let n = assets.len();
    assert(assets@.take(0) =~= Seq::<SimplifiedToken>::empty());
    for i in 0..n
        invariant
            n == assets@.len(),
            first_token_match(assets@.take(i as int), token@) is None,
    {
        let found = eq_ignore_ascii_case(assets[i].symbol.as_str(), token);
        proof {
            assert(assets@.take(i + 1).drop_last() =~= assets@.take(i as int));
            assert(assets@.take(i + 1).last() == assets@[i as int]);
        }
        if found {
            proof {
                lemma_first_token_match_prefix(assets@, token@, i + 1);
            }
            return Ok(i);
        }
    }
    assert(assets@.take(n as int) =~= assets@);
    let mut available: Vec<String> = Vec::new();
    for i in 0..n
        invariant
            n == assets@.len(),
            available@.map_values(|s: String| s@) == token_symbols(assets@.take(i as int)),
    {
        let ghost before = available@;
        available.push(assets[i].symbol.clone());
        proof {
            let lhs = available@.map_values(|s: String| s@);
            let rhs = token_symbols(assets@.take(i + 1));
            assert(before.map_values(|s: String| s@).len() == i);
            assert forall|j: int| 0 <= j < i + 1 implies lhs[j] == rhs[j] by {
                if j < i {
                    assert(before.map_values(|s: String| s@)[j] == token_symbols(
                        assets@.take(i as int),
                    )[j]);
                }
            }
            assert(lhs =~= rhs);
        }
    }
    assert(assets@.take(n as int) =~= assets@);
    Err(PaymentError::TokenNotFound { token: String::from_str(token), available })
}

/// The label of one token in the token prompt.
pub open spec fn token_option_label(symbol: Seq<char>, balance: Seq<char>) -> Seq<char> {
    symbol + " (balance: "@ + balance + ")"@
}

/// The choices of the token prompt: each token's symbol with its balance as the user
/// reads it (`human_balances[i]` for `tokens[i]`). An empty treasury is an error.
pub fn token_option_labels(tokens: &Vec<SimplifiedToken>, human_balances: &Vec<String>) -> (r:
    Result<Vec<String>, PaymentError>)
    requires
        human_balances@.len() == tokens@.len(),
    ensures
        tokens@.len() == 0 ==> r matches Err(PaymentError::NoAssets),
        tokens@.len() > 0 ==> (r matches Ok(labels) && labels@.len() == tokens@.len() && forall|
            i: int,
        |
            0 <= i < tokens@.len() ==> #[trigger] labels@[i]@ == token_option_label(
                tokens@[i].symbol@,
                human_balances@[i]@,
            )),
{
    if tokens.len() == 0 {
        return Err(PaymentError::NoAssets);
    }
    let n = tokens.len();
    let mut labels: Vec<String> = Vec::new();
    for i in 0..n
        invariant
            n == tokens@.len(),
            human_balances@.len() == n,
            labels@.len() == i,
            forall|k: int|
                0 <= k < i ==> #[trigger] labels@[k]@ == token_option_label(
                    tokens@[k].symbol@,
                    human_balances@[k]@,
                ),
    {
        let mut label = String::from_str(tokens[i].symbol.as_str());
        label.append(" (balance: ");
        label.append(human_balances[i].as_str());
        label.append(")");
        labels.push(label);
    }
    Ok(labels)
}

/// The symbol of a chosen token label: the text before its first space.
pub fn symbol_of_token_option(selection: &str) -> (r: String)
    ensures
        r@ == before_first_space(selection@),
{
    let chars = chars_of(selection);
    let n = chars.len();
    let mut i: usize = 0;
    while i < n && chars[i] != ' '
        invariant
            chars@ == selection@,
            n == chars@.len(),
            i <= n,
            forall|k: int| 0 <= k < i ==> chars@[k] != ' ',
        decreases n - i,
    {
        i = i + 1;
    }
    proof {
        lemma_before_first_space(selection@, i as int);
    }
    String::from_str(selection.substring_char(0, i))
}

proof fn lemma_before_first_space(s: Seq<char>, i: int)
    requires
        0 <= i <= s.len(),
        forall|k: int| 0 <= k < i ==> s[k] != ' ',
        i < s.len() ==> s[i] == ' ',
    ensures
        before_first_space(s) == s.subrange(0, i),
    decreases s.len(),
{
    if s.len() > 0 && i > 0 {
        lemma_before_first_space(s.drop_first(), i - 1);
        assert(s.subrange(0, i) =~= seq![s[0]] + s.drop_first().subrange(0, i - 1));
    } else if s.len() > 0 {
        assert(s.subrange(0, 0) =~= Seq::<char>::empty());
    } else {
        assert(s.subrange(0, 0) =~= s);
    }
}

/// The context of a payment once the token to pay with is known.
#[derive(Debug)]
pub struct PaymentTokenContext {
    pub trezu_config: TrezuConfig,
    pub treasury_id: String,
    /// The signing account, a valid account id.
    pub signer_id: String,
    pub token: SimplifiedToken,
    pub policy: Policy,
    /// Whether the treasury pays through private (confidential) intents.
    pub is_confidential: bool,
}

impl PaymentTokenContext {
    /// The payment context of `token` on the treasury of `previous_context`, signed by
    /// `signer_id` (from `signer_id_from_config`) under the treasury's `policy`.
    pub fn from_previous_context(
        previous_context: TreasuryContext,
        signer_id: String,
        token: SimplifiedToken,
        policy: Policy,
        is_confidential: bool,
    ) -> (r: Self)
        requires
            valid_account_id(signer_id@),
        ensures
            r.trezu_config == previous_context.config,
            r.treasury_id@ == previous_context.treasury_id@,
            r.signer_id == signer_id,
            r.token == token,
            r.policy == policy,
            r.is_confidential == is_confidential,
    {
        PaymentTokenContext {
            trezu_config: previous_context.config,
            treasury_id: previous_context.treasury_id,
            signer_id,
            token,
            policy,
            is_confidential,
        }
    }
}

} // verus!
