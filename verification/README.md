# warpgate

The decisions of an access gateway, as a verified library, and the asynchronous
code around them.

`src/` is the library. Every flow that waits for something outside (a database,
a client, a cluster) is a state machine there: a step takes the answer to the
last question and gives the next one. What each step does is stated as a
relation, and what holds of whole runs is proved from it.

- `config_providers`, `tickets`, `db_target`: who may reach which target, by a
  role or by a ticket.
- `ticket_store`: what holds of logins and grants that race for the uses of
  stored tickets.
- `db_auth`, `db_auth_laws`: logins over the database protocols, and what holds
  of every one of them.
- `access_watch`: when a session has to be closed because its grant is gone.
- `state`: the user sessions of one node.
- `api_request`, `normal_request`, `websocket_request`, with `routes`,
  `headers`, `websocket`, `stream_errors` and `session_handle`: requests to the
  Kubernetes API.
- `instance_ca`: the endpoint that hands out the instance's certificate.
- `migration`: a repair of stored credential policies.
- `model`, `text`, `http_fields`: values that the others share.

`app/` runs the flows: sockets, HTTP, databases and tasks. `tests/` runs the
library on concrete values, with the other crates linked.
