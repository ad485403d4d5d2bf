# wallet_services

The wallet services: HTTP services for business registration, webhook
addresses, card-verification outcomes, password links, signing agreements
and transfers; a Kafka consumer that turns wallet events into webhook
notifications; a Redis listener that delivers refused notifications again,
sealed with libsodium; and a job that sums the fees of the last hours per
application.

- `src/` is the library, verified with Verus: response envelopes, request
  checks, SQL statement selection, the fee statistics, the retry-key format,
  the retransmission schedule, the registration flow as a state machine, and
  the calls into `base64`, `sodiumoxide` and `uuid` behind contracts.
- `app/` runs the services: configuration files, database pools, HTTP,
  Kafka and Redis, with serde copies of the library's types.
- `tests/` checks the library on concrete values.
