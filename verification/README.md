# ce_ratio

Torrent-style compute share-ratio and reputation, verified with Verus.

A node's ratio is what it earned as host, net of the settlement burn, over what it spent as
requester, gross. The library turns ledger totals into that exact rational and uses it to rank,
order and price scheduling choices.

**Rank and order only, never authorization.** A high ratio grants nothing and a low one denies
nothing; it biases which already-permitted choice a caller prefers and what price a host quotes.

## Layout

- `src/` is the verified library. Contracts speak of the spec functions beside each function; proof
  functions named `law_..` state what holds across functions.
  - `amount`, `history`: money and the ledger totals of a node.
  - `burn`: the settlement burn, the balanced point and the floor derived from it.
  - `ratio`, `wide`: the exact ratio and its 256-bit comparison with a threshold.
  - `decay`: recency, for ordering and display.
  - `tier`: tiers, policy, freeleech.
  - `admission`: the price that a requester pays.
  - `rank`, `names`: hosts in order of preference.
- `tests/` runs the library on concrete values.
- `app/` reads a node over HTTP and prints rankings.
