# ipc_flowmeter

A data-acquisition service for BL410 flowmeters on a Modbus RTU line. It
polls the meters, stores readings in SQLite, streams them to WebSocket
clients, and tracks fuel-transfer transactions confirmed over an HTTP API
until their target volume is delivered.

## Layout

- `src/` is the library, verified with Verus:
  - `flowmeter`: the register map and the decoding of a holding-register
    payload into a reading; parameter lookup and listing.
  - `api_service`: validation of transaction requests and the transaction
    record a valid request becomes.
  - `tracking`: streaming-client count, polling start/stop decisions and
    volume tracking of the active transaction.
  - `socket_server`: per-client bookkeeping and the routing of client
    messages to actions and data-service requests.
  - `batch`: the database write buffer.
  - `config`, `parse`: command-line configuration and the integer, trim and
    split rules it relies on.
  - `formatters`, `data_service`, `sqlite_queries`: the console and CSV
    layouts, device registration and lookup, and the SQL the storage layer
    sends.
  - `float_bits`: measurement values carried as IEEE-754 binary32 encodings,
    with IEEE comparisons; the library does no float arithmetic.
- `tests/`: tests of the library.
- `app/`: the program around it (CLI, the Modbus transport interface, SQLite through
  sqlx, the actix-web API, the tokio-tungstenite WebSocket server, JSON and
  float rendering).
