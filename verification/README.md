# aberp

The decision core of the ABERP invoicing and accounts-payable backend,
written in Verus: every function in `src/` carries a contract that Verus
proves.

- `src/` — the verified library: Hungarian tax-number shape checks, issuance
  pre-flight validation and its bilingual messages, request guards of the
  invoice / storno / modification pipelines, the chain decisions over the
  audit trail (storno / modification eligibility, `modificationIndex`
  allocation, the fold order of saved modifications), rate walk-back steps,
  incoming-invoice ids, statuses and status-change planning, draft staging,
  the MES adapter migration, and the post-write checkpoint debouncer.
  Calls into `time`, `ulid`, `sha2` and `rust_decimal` stand behind small
  trusted wrappers whose contracts say what those crates document.
- `tests/` — tests of the library on concrete values.
- `app/` — the command-line binary and the storage / ledger / network glue
  around the library.
