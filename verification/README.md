# nt_payments

Payment proposals for a NEAR treasury (a Sputnik DAO), verified with Verus.

A payment is proposed to the treasury through `add_proposal`. Depending on where the
token lives and where it goes, the proposal is a plain `Transfer`, a public 1Click
intents transfer (the treasury pays the quote's `amountIn` to a deposit address), or a
confidential one (the DAO asks `v1.signer` to sign the hash of an intent the backend
stored).

## Layout

- `src/` — the verified library
  - `text.rs`: ASCII case, prefixes, Unicode trimming, decimal parsing
  - `json.rs`: JSON text of string-valued objects, Base64 of call arguments
  - `asset.rs`: treasury tokens, 1Click origin asset ids, `Transfer` token ids,
    bridge catalog lookup
  - `markdown.rs`: proposal descriptions ("* Key Name: value" joined with " <br>")
  - `error.rs`: why a payment cannot be prepared, with its message
  - `context.rs`: treasury, signer and token contexts; account id validation
  - `destination.rs`: the destinations offered for a token
  - `proposal.rs`: proposal kinds, the public and confidential builders, the
    `add_proposal` arguments
  - `send.rs`: the send flow, one step per answer of an outside service
  - `laws.rs`: properties that tie several of these together
- `tests/` — tests on concrete values
- `app/` — prompts, backend calls, JSON of the backend, and the loop that runs the
  send flow
