# backend

Verified decision logic of a trading backend that turns approved strategies into Drift
perpetual orders and closes them again on a stop-loss.

- `src/` (Verus): markets and sides (`markets`), symbol lookup (`symbols`), order sizing
  (`orders`), the engine's entry and stop-loss passes as step functions (`engine`), the
  stand-in Drift service (`mock`), chat messages and the stand-in language model (`llm`),
  the RPC endpoint (`rpc`) and strategy creation rules (`strategy`).
- `app/`: HTTP controllers, provider traits, float conversions and the engine loop that
  carries out the actions the library decides.
- `tests/`: concrete scenarios for every public function and law.

Not built here: the on-chain Drift service (it needs the `drift_rs` client, which this
build does not include; its order sizing, close amounts, error messages and client settings
are the library's `orders` and `rpc`), the database entities (reached through the
`StrategyRepository` trait in `app/`), the condition-language evaluator (the
`ConditionEvaluator` trait in `app/`) and the chat-history route (no chat store).
