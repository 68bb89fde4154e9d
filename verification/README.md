# cocktail_bot_hal

A hardware abstraction layer and REST server core for cocktail mixing robots,
with its request decisions proved correct by Verus.

## Layout

- `src/` — the verified library.
  - `hal` — the data types shared by HAL implementations and the server, the
    `PasswordHasher` interface, and the CRC-32 backup checksum.
  - `server` — request-head parsing, header lookup, HTTP Basic credentials,
    authorization, routing, the provisioning gate, and the decisions of each
    endpoint (`handlers`), the job-id scheme, and the change detection of the
    event stream (`sse`).
  - `esp32`, `stub`, `storage::ram` — HAL stubs and a RAM configuration store
    that need no hardware.
  - `cocktail`, `cocktailor`, `thecocktaildb` — cocktail recipes, the grammar
    and units of ingredient measures, and the recipes built from two recipe
    databases.
- `tests/` — tests of the library.
- `app/` — what the library cannot hold: the async HAL traits, the JSON forms
  of the types, socket I/O, the server loops, the embassy entry point, the
  floating-point measure arithmetic, and the HTTP lookup of drinks.

Floating-point values (volumes, calibration factors, sensor confidence) are
carried in the library as their IEEE-754 bit patterns.
