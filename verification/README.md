# beer-mcp

An [MCP](https://modelcontextprotocol.io/) server with a single tool, `order_beer`. Orders are
taken of users who authenticate against a Rancher server and hold the required global role. The
server confirms the order, and a human delivers the beer.

- `src/` is the library, verified with Verus: the rules of ordering (`beer`), the decision on a
  request's credentials (`rancher_auth`), the conversation with Rancher as a state machine
  (`session`), the configuration (`settings`), operations on texts (`text`), and the calls into
  the `http` and `rand` crates, with what is relied on of each (`web`, `chance`).
- `app/` is the server around it: it listens, sleeps, logs, talks to Rancher, and speaks MCP.
- `tests/` runs the library.

| Variable             | Meaning                                        | Default        |
|----------------------|------------------------------------------------|----------------|
| `PORT`               | port to listen on                              | `3000`         |
| `REQUIRED_ROLE`      | global role that it takes to order             | `susecon-beer` |
| `RANCHER_TLS_VERIFY` | `false` or `0` accepts invalid certificates    | verify         |
| `RUST_LOG`           | level of logging                               | `info`         |

The MCP endpoint is `/mcp`, the health check is `/health`.
