# nexus_server

A chat and forum server: users register and log in, talk in the channels of
community servers and in direct messages, post in forums, invite each other to
servers and receive notifications. Clients speak bincode-encoded messages over
length-delimited TCP frames; everything is stored in SQLite.

## Layout

- `src/` is the verified library (Verus). It holds the server's decisions and
  data handling: password rules and login checks, the rate limiter, content
  moderation, pagination and paging of stored history, reading stored rows into
  domain values, the invite checks, forum permissions, request admission,
  message fan-out recipients, audit records, and the laws that tie them together
  (for example that a rate-limit window admits at most its limit, and that the
  invite check approves exactly the valid invites).
- `tests/` exercises the library on concrete values.
- `app/` is the executable around it: the TCP listener and per-connection loop,
  the wire protocol with its serde forms, and the SQLite queries.
