# university_registration

The verified core of a university project registration system made of three
services: an authentication service, a notification service and a REST
router in front of them.

- `src/` is the library, checked by Verus. It holds what the services decide
  and compute: role numbers and names, settings with their defaults, password
  and token handling, the answers of the authentication calls, notification
  records and the keys they are indexed under, the mapping of RPC failures to
  HTTP errors, bearer-token and role checks, and the conversions between RPC
  messages and REST bodies. Database access and network transport stay
  outside; the functions take the results of those calls as arguments.
- `app/` is ordinary Rust around it: reading the environment, the `fjall`
  notification store with a small command-line front end, and the
  authentication calls written against a `UserDirectory` interface for the
  user database; no implementation of that interface is part of this build.
- `tests/` runs the library on concrete values.

Layout of `src/`: `text` (character-level helpers), `roles`, `rpc` (message
types), `clock` and `ids` (time and fresh ids), `auth` (`config`, `models`,
`service`), `notification` (`config`, `store`), `router` (`config`, `error`,
`middleware`, `models`, `handlers`).
