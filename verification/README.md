# devbridge

The DevBridge tunnel command line as a verified library. The logic — input
validation, request plans, configuration changes, credential resolution,
login callbacks, release-version arithmetic, tunnel routing decisions and the
texts printed — is written in Verus with `requires`/`ensures` contracts and
proved; networking, files, the keyring and the terminal stay in `app/`.

## Layout

- `src/text.rs`, `src/http.rs`, `src/codec.rs`, `src/table.rs`: characters,
  decimal notation, JSON bodies, Base64/UTF-8 and table drawing, the last
  three through their crates behind trusted wrappers whose contracts name
  the results.
- `src/control/`: settings, REST request plans and validation, local
  configuration, API keys and the browser login.
- `src/tunnel/`: gateway channel routing, admitted ports, banners, the
  WebSocket handshake and the byte stream read from WebSocket frames.
- `src/frontend.rs`: the decisions of the `devbridge` commands (which
  tunnel, which ports, which credential) and their printed output.
- `src/cli/`: the `cli` command set: its request plans, configuration,
  keyring blob, login callback reader, messages in two languages, release
  checks and output formatting.
- `app/`: argument parsing, HTTP, files, keyring, SSH and WebSocket I/O.
- `tests/`: tests on concrete values, run against the compiled library.

Laws stand in `src/` as public proof functions (`lemma_*`) or as `ensures`
clauses of the functions they describe.
