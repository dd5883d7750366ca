# gradient_web

The request logic of a Nix build server: what its HTTP endpoints decide and answer.
The library in `src/` is verified with Verus. It takes plain values (rows that were
loaded, outcomes of lookups, payloads that were parsed) and gives plain values back
(rows to store, answers, errors, statements). `app/` is ordinary Rust around it.

- `error`, `helpers`, `config`, `text`, `paths`, `order`, `rows`, `codec`, `json`,
  `sql` — the ground that the rest stands on; `codec`, `sql`, `error` and `metrics` hold
  the calls into other crates.
- `forge_hooks` — webhooks of GitHub, Gitea, Forgejo and GitLab: payloads, signatures,
  filters, the fan-out to projects, approval of pull requests.
- `evals`, `projects` — evaluations, builds, logs, entry points, artifacts, metrics,
  triggers and actions.
- `orgs`, `users`, `servers`, `webhooks`, `roles`, `permissions`, `commits` — what
  belongs to organizations and users.
- `caches`, `stats` — binary caches: access, metadata, archives, uploads, upstreams.
- `metrics` — the exposition for scrapers.
- `routes`, `access` — who may call which route, how often, and which permission it asks
  for.

Contracts speak of sequences of characters and rows. Proof functions whose names begin
with `law_` state what holds across functions.
