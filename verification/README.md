# airchainpay-relay

The AirChainPay relay accepts signed transactions and payloads from wallets
(over HTTP and Bluetooth), checks and records them, and tracks the devices,
alerts and scheduled work around them.

The decisions of the relay live in `src/` and are proved with Verus:

- `config`: the configuration of each deployment, read from the environment.
- `auth`: device tokens (HS256 JWTs), API keys and generated secrets.
- `security`, `sanitizer`: the format checks on identifiers, hashes and numbers.
- `middleware`: rate limiting, the address allow-list, the request screen
  (size, content type, injection patterns, response headers), request
  validation, request counting, and the error answers with their circuit
  breakers.
- `recovery`, `error`: circuit breakers, the decisions of the retry loop,
  fallbacks, and the error types with their HTTP answers.
- `storage`: the transaction log (the newest thousand), devices and counters.
- `ble`: the device registry, per-device rate limits, blocking,
  authentication and key exchange.
- `monitoring`, `logger`: counters, alert rules, health, and structured logs.
- `scheduler`, `processors`, `blockchain`: task queues and retry steps, the
  transaction queue order, and the receipt polling.
- `api`: the checks of the transaction endpoints and the health answers.

`app/` holds the server around them: environment and logging setup, the
actix-web routes, the request screen and the error screen with its component
breakers, and the JSON forms of the library's types.
