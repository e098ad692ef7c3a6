# cursus

The verified core of Cursus, a workflow service whose steps are HTTP
endpoints. The library holds the service's rules, each with a contract that
Verus proves:

- `middlewares::request_event`: the per-request log record: which request id
  a request is logged under, the shape of a query string (its sorted,
  deduplicated key names), how context added by several layers is combined,
  and the level of the line.
- `middlewares::user`: the authentication decision, one step at a time.
  Every refusal answers the same 401 and body; only the logged reason
  differs.
- `dtos` and `dto`: request validation (workflows, steps, sign up, edges),
  the domain errors with their messages and responses, and responses built
  from stored rows.
- `app`: the server configuration and how it is read from its environment
  values.
- `json`, `text`, `ids`, `timestamps`, `schedule`: a JSON value model, text
  helpers, and the calls into `uuid`, `chrono`, `jiff` and `cron`.

`app/` holds what Verus does not see: the actix-web middleware that reads
requests and writes the log line, the mapping of error replies onto HTTP
responses, reading the environment, and assembling and running the server
(state, JSON error shape, request logging, the `/api/v1` scopes with the
authentication middleware).
