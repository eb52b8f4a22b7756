# kagi-tavily-bridge

A service that answers Tavily-shaped `POST /search` and `POST /extract`
requests with results from Kagi, returning the fields that Hermes Agent and
OpenClaw read from Tavily responses.

- `src/` is the verified library:
  - `models.rs`: the request and response types;
  - `adapter.rs`: request validation, and the translation of Kagi's answers
    into Tavily responses;
  - `kagi.rs`: what is exchanged with Kagi (the parts of its answers that are
    read, the parameters of the calls, the upstream error);
  - `http.rs`: the endpoint decisions (API key, refusal, answer, error status);
  - `laws.rs`: properties that span these functions.
- `app/` is the HTTP service around it: JSON forms of the types, the axum
  router, the calls to Kagi's API, and `main`.
- `tests/` runs the library on concrete inputs.
