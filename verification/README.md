# AegisMCP-Gateway core

A zero-trust gateway for Model Context Protocol traffic, with its decision logic
written in Verus and proved against its contracts.

- `src/` is the verified library:
  - `router` — endpoint classification, route resolution, the guardrail
    pipeline as a state machine (`GuardState::advance`), refusal answers,
    audit entries and the headers forwarded upstream;
  - `telemetry` — W3C `traceparent` parsing, rendering and propagation, and
    the labels of the gateway's metric samples;
  - `middleware`, `sse` — request ids, latency and timeout answers, SSE
    detection and headers;
  - `config` — the configuration schema and its defaults;
  - `wasm` — the plugin contract types, result mapping, plugin metadata and
    Ed25519 signature checks, the component cache, instance pools and the
    hot-swap table;
  - `pii` — the PII guardrail plugin's decision;
  - `strmap`, `headers`, `text` — string-keyed maps, header value rules and
    character-level text functions with their mathematical meaning.
- `app/` is the binary around it: the Tokio/Hyper server, the Tower layers,
  configuration loading and hot-reloading, Prometheus recording, and the
  driver that puts the pipeline's questions to the guardrail engines.
- `tests/` exercises the library on concrete values.
