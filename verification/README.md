# transport-rest

A client for the [transport.rest](https://transport.rest) family of public
transit APIs (Deutsche Bahn, BVG/VBB Berlin & Brandenburg, Poland and
compatible self-hosted instances), and the binding generator's schema logic.

The library in `src/` is written in Verus. Its own functions carry
`requires`/`ensures` contracts that the verifier proves; the calls into
outside crates and into std functions that vstd does not specify sit in
small trusted functions (`#[verifier::external_body]`) whose contracts are
assumed, not proved, and whose doc comments say what they claim.

## Layout

* `src/` – the verified library
  * `builder.rs`, `client.rs` – client settings, base URL resolution,
    capability gating, request URLs
  * `api/` – one builder per endpoint; `plan()` validates the options and
    yields the path and the ordered query parameters
  * `request.rs`, `encoding.rs`, `products.rs` – query parameters, percent
    encoding, product filters
  * `decimal.rs` – coordinates as decimal text, ordered as IEEE 754 orders
    the floating-point values they were written from
  * `response.rs`, `error.rs` – body size cap, classification of failed
    responses, `Retry-After`, error messages
  * `models.rs` – open string enums, tolerant operator shapes, tag dispatch
    of places
  * `schema.rs`, `json.rs`, `json_text.rs`, `meta.rs` – the generator's
    schema model, its validation, which schema files are read and in what
    order, their parsing and merge (objects kept in ascending key order),
    and the metadata document and its text
  * `text.rs`, `datetime.rs` – text helpers and the code-point order of
    texts; instants with a UTC offset and their RFC 3339 text
* `app/` – ordinary Rust around the library: the `reqwest` transport,
  `serde` models, `thiserror` errors and the generator's command line
* `tests/` – tests of the library

Contracts are stated over mathematical models (`Seq`, `Set`, spec
functions). Calls into `url`, `chrono`, `serde_json` and `percent-encoding`
go through such trusted wrappers, whose contracts name or state what those
crates return; what the library does with the result is verified.
