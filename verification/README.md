# stellar-grants

The rules of grants that are paid out milestone by milestone, verified with
Verus.

- `src/governance.rs`: votes on milestones, by reputation or by a quadratic count.
- `src/refund.rs`: how the escrow of a cancelled grant is divided and paid out.
- `src/registry.rs`: the contributor index and the allowlist of voters.
- `src/*_laws.rs`: what holds of every vote, refund and registration.
- `src/host.rs`: the collections of `soroban_sdk`, and what is taken on trust of
  them.
- `app/`: the contract around the rules, which reads and writes the ledger.
