# api_gateway

An API gateway over a MySQL database: it registers users with API keys,
admits requests only with a stored key, and logs every request made with one.

- `src/` is the verified library. It holds the gateway's decisions as step
  functions (authorization, request logging, registration), each with a
  transition rule, a contract tying the step to that rule, and proved laws
  over whole runs; the records, the log-type codes, the routing table, the
  answers of the handlers, the names of test databases and the text of the
  command-line tools.
- `app/` is the server around it: axum handlers and tower layers that run
  the library's steps against the database and the wrapped service.
- `tests/` drives the library's step functions through the scenarios the
  gateway handles.
