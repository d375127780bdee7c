# xlm_ns

A name service for Stellar `.xlm` names, written in Verus.

- `src/` is the verified library. The registry, registrar, resolver, subdomain,
  auction and bridge contracts are state machines whose contracts give the error
  of each refused call and the whole new state of each accepted one. The client's
  decisions and texts (contract policy, renewal reports, history listing, guided
  bids, command reports) are plain functions with exact results, except where a
  result comes from the clock. Laws that span several operations are public proof
  functions named `law_*`.
- `app/` is the command-line program around the library: argument handling,
  configuration, file caching and printing.
- `tests/` runs the library on concrete values.
