# api

The logic of a small blog back end, verified with Verus: the chat agents that
build model requests, the search that turns vector hits and tool calls into an
answer's context, the guards on tokens and rate limits, the socket session that
makes cover images, and the answers that errors get.

## Layout

- `src/` — the verified library.
  - `text.rs`, `pattern.rs`: string operations with their specifications, and
    the regular-expression calls (trusted wrappers around `regex`).
  - `cloudflare/models/`: model names, request and response types, the model
    endpoint's address and headers.
  - `api/agent/`: prompt templates, conversations, the question-answer and
    function-calling agents, and recovery of tool calls from model text.
  - `api/search/`: vector hits, keyword sections, the tools offered to the
    model, and the observations that each tool call's result gives
    (`calls.rs`, which reads stored Notion pages and blocks through
    `notion-client` and `serde_json`).
  - `api/auth.rs`, `api/token.rs`: bearer tokens, the key that checks a
    token, administrators and the rate limit.
  - `api/ws/`: the state machine of the cover-image socket.
  - `api/response.rs`, `api/mod.rs`: errors and the HTTP status they answer.
- `tests/` — tests of the library.
- `app/` — the server around it (axum routes, HTTP calls to the models, S3,
  Notion, token signature checks).

## What the server does not include

The server in `app/` serves the health check, the page generation routes
behind the administrator guard, and the cover-image socket. The routes that
read the blog's database (pages, blocks, events, posts, feeds, users, the
per-user rate limit and user ids) need the project's database crates, and the
search route needs a vector-store client, an RPC router and a prompt-log
service; none of these is part of this build. The decisions those routes make
stand in `src/` and are tested there.
