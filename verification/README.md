# seeable

The decisions of a small web application (sign-in by e-mailed link, sessions
in signed cookies, per-user dataspaces provisioned in a Postgres warehouse),
written as a Verus library with their contracts proved.

- `src/common`: configuration read from a snapshot of the environment, the
  cookie key, identities and sessions, random identifiers.
- `src/ui`: the answers of the HTTP handlers (pages to render, redirections,
  cookie changes) and the login-link flow as a state machine.
- `src/modules`: user creation and warehouse provisioning as state machines,
  and the provisioning job's decisions.
- `app/`: the server around the library: environment, database pools, SQL,
  templates, the router and the job runner.
- `tests/`: the library's tests.
