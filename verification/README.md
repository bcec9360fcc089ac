# agent-devex

A CLI that scaffolds a Soroban smart contract wired for agent payments,
together with an MCP server (TypeScript or Python), and builds and deploys
the contract to Stellar.

The decisions of every subcommand are written in Verus and proved against
their contracts; the program around them only reads, runs and prints.

## Layout

- `src/` — the verified library.
  - `commands/` — one module per subcommand (`init`, `validate`, `doctor`,
    `status`, `deploy`, `run`, `compile`). Each takes what the program found
    (file probes, tool outcomes, environment values) as plain values and
    returns what to write, run or print. `deploy` is a state machine: from
    each reported event it names the next action.
  - `contract.rs` — a model of the generated AgentPay contract (allowlist,
    escrows, settlement), with the laws it keeps.
  - `embed.rs`, `scaffold.rs` — which embedded template files go where, and
    placeholder substitution.
  - `names.rs`, `secrets.rs`, `paths.rs`, `config.rs`, `state.rs`,
    `errors.rs`, `text.rs` — project-name rules, secret redaction, the
    project layout, configuration values, error messages, and the string
    functions they rest on.
- `app/` — the executable: argument parsing, logging, the panic report,
  `.env` loading, TOML files, template embedding, and running `stellar`.
- `tests/` — tests of the library on concrete values.
