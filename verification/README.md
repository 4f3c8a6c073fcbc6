# synapse_contract

A Verus-verified library holding the logic of the Synapse settlement
contract for Stellar: administrator and relayer roles, an asset allowlist,
deposit registration (idempotent per anchor transaction id), the deposit
lifecycle, a dead-letter queue for failed deposits, and settlements.

- `src/spec.rs` states each entry point as a step function over
  `ContractModel`; `src/contract.rs` implements `SynapseContract` and proves
  every method against its step; `src/laws.rs` proves the properties that
  span several calls; `src/text_set.rs` holds sets of strkeys and codes.
- `app/lib.rs` is the Soroban contract around the library: it checks
  authorization, loads and stores the state, passes the ledger sequence and
  publishes the events the library records.
