# z2prod

A newsletter subscription service. `src/` is the verified library:

- `domain` — subscriber names and email addresses, accepted only when
  they pass their validation rules (kept as type invariants).
- `routes::subscriptions` — the submitted form and its validation, the
  subscription token, the confirmation link and email, error reports.
- `routes::subscribe_flow` — the decisions taken while a subscription
  request is served, as a machine from state and outcome to the next
  piece of work, with the laws it keeps.
- `startup` — the application's base URL and listening address.
- `text` — decimal numbers and character appending.

`app/` is the web server around it: HTTP handlers, database queries,
the email HTTP client, start-up.
