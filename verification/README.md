# bitlab_presale

The rules of the BitLab token presale, written in Verus and proved against
their contracts.

- `src/` — the library: the price schedule and payment conversions
  (`constants`), little-endian decoding (`bytes`), account addresses (`key`),
  the Pyth SOL/USD quote reader (`oracle`), the sale's state (`presale_state`),
  the purchase rules (`sale`, `buy`), the administrative instructions
  (`instructions`), creation (`initialize`), withdrawals (`withdraw`), and
  properties that span instructions (`laws`).
- `app/` — the Solana program built with Anchor: it reads the clock and rent
  sysvars, converts Anchor's accounts to the library's plain values, asks the
  library for the decision, then performs the transfers and emits the events.
- `tests/` — tests of the library.
