# starfish

The back end of a small storefront: stores, products, customers, checkout
sessions and links, orders and the balance of each store's payment account,
served over GraphQL.

## Layout

- `src/` is the library, written in Verus. It holds the service's decisions as
  functions with contracts: who may act on what, which failure answers which
  request, how a partial update changes a row, how a paid checkout session
  becomes an order and its transactions, the platform fee, the session tokens
  and their lifetimes, and the codes, hashes and secrets the service hands out.
  Where a request alternates database work and decisions, the library gives
  each decision as a step that takes what the database returned, and its
  contract says which failure comes first. Calls into hashing, encoding,
  randomness and clock code go through small trusted wrappers whose contracts
  say what that code documents.
- `tests/` runs the library on concrete values.
- `app/` is the server around it: configuration from the environment, the
  database queries, the mail client, token signing, and the GraphQL schema. It
  runs the queries, hands their results to the library's steps in turn, and
  writes back what they decided. Payments go to Stripe through a small client
  of its own, written over `reqwest`.

Verify with Verus on `src/lib.rs`; the laws of the library are the public proof
functions (named `lemma_*`) beside the functions they speak of.
