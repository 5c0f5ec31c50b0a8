# komment

A commenting widget backed by GitHub Discussions. The library (`src/`) holds
the verified logic: the GraphQL queries and mutations the widget sends, the
request it prepares for each, how it judges GitHub's replies, how it finds a
discussion category, and the HTML it renders for a discussion.

- `config`, `models`: the widget configuration and the GraphQL reply types.
- `templates`: the query, mutation and markup templates, each with a spec
  function that states its text and a writer proved to produce it.
- `text`: string helpers (character replacement, first-occurrence split,
  decimal digits) with their specifications and laws.
- `json`: the JSON string escaping that serde_json performs, its reading back
  (proved to invert it), and the calls into `serde_json` behind trusted wrappers.
- `api`: quoting of GraphQL strings, request preparation, HTTP and GraphQL
  failure reports, and the queries for each operation.
- `render`: choosing the discussion in a reply and rendering it.
- `error`: the failures and the messages shown for them.

`app/` is the JavaScript-facing glue (`wasm-bindgen` bindings, `fetch`, DOM
updates) and the Cloudflare Worker proxy.
