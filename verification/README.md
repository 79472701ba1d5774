# bigtable_rs

A client for Google Bigtable whose decisions are verified with Verus.

- `src/` is the library. It performs no I/O.
  - `connect`: how a connection comes about, as a dialogue of questions and answers that ends with
    a plan
  - `endpoint`: the endpoints that a channel is opened to
  - `client`, `config`: what a client is built with
  - `table`: connections, clients and the names of tables
  - `v2`, `util`: requests, and the row range of a key prefix
  - `error`: errors and their messages
  - `outside`: what is taken on trust of tonic, tower and the standard library
- `app/` opens the channels and makes the calls. The generated stub of the Bigtable service, its
  authentication layer, the root certificates and the decoder of row responses are supplied through
  the `Stub` trait.
- `tests/` runs the library with the real crates.
