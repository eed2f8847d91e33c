# axis_auction

A settlement-right auction for a mock DTF market: a market's NAV gap is
auctioned in rounds, the highest bidder wins the right to settle it, the
settlement's economics are recorded in an immutable receipt, and the winning
bid is split between the protocol and the market creator (record-only).

- `src/` is the verified library. `math` states the economics exactly over
  mathematical integers; `instructions/*` state each lifecycle step as a
  function from the accounts it reads to the accounts it writes and the event
  it emits (a refused step changes nothing); `lifecycle` holds the laws that
  relate the steps (a round is closed, settled and paid at most once, the
  revenue split adds up to the winning bid, and so on).
- `app/` is the Anchor program around it: account layouts, PDA seeds, the
  clock, events and error codes, converting to and from the library's plain
  values.
- `tests/` exercises the library on concrete values.
