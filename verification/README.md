# simadmin

Notification delivery and protocol messages for SimAdmin agents and hubs,
written in Verus.

- `src/` is the verified library.
  - `text`, `codec`, `json`, `clock`: string helpers (Unicode trimming,
    whitespace collapsing, decimal text), percent-encoding, hex, Base64 and
    HMAC-SHA256, the JSON values the library builds and reads, the system
    clock.
  - `notify`: the eleven notification channels. `config` checks a channel
    configuration; `request` builds the HTTP request each channel sends;
    `email` plans an e-mail; `delivery` is the state machine of one delivery
    (`start_delivery`, then `on_reply` for each answer) and the check of a
    provider's answer for a refusal.
  - `protocol`: the messages exchanged between agents and the hub.
- `app/` performs what the library decides: JSON (de)serialization with
  `serde`, HTTP with `reqwest`, SMTP with `lettre`. It also holds the device
  status report, whose readings are floating-point.
- `tests/` runs the library on concrete values.
