# cognite

Data types and request-building logic for the Cognite Data Fusion API,
written in Verus: each operation carries a contract, and Verus proves the
code against it.

## Layout

- `src/` — the verified library.
  - `identity`, `items`, `error`: identities of resources, identity lists
    and their JSON text, chunking, and reading duplicated or missing
    identities out of API errors.
  - `filter`, `filter_types`, `params`: advanced filters and their
    combinators, range bounds, partitions (`N/M` text, parsing), and query
    parameters rendered as text.
  - `patch`, `resource`: update items under upsert options; the steps of
    an upsert (which requests it sends and what it returns), which items a
    retry sends, partitioned reads, and listings that follow cursors.
  - `cdf_core`: assets, events, files, sequences, time series and
    datapoints, including the conversions between the datapoints protocol
    messages and the response types.
  - `models`: data modeling (spaces, containers, views, data models,
    instances, queries, records, streams, and the core data model types).
  - `raw`, `extpipes`, `data_organization`, `iam`, `client`: the remaining
    resource types, the client settings, and the settings read from
    environment variables.
- `tests/` — tests of the library on concrete values.
- `app/` — the serde and display forms of the wire types, which carry
  outside derives and `std::fmt` impls that the verified library cannot,
  and loops that run the library's upsert and listing steps against a
  function that sends the requests.

Floating-point values are held as the bits of their `f64` throughout the
library; `app/` converts them.
