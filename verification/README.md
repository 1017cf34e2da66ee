# mania

A verified core of an NTQQ protocol client: the binary packet builder and
reader, service and SSO packet framing, TLV record sets, the QR code login
exchange (trans_emp) and its time-limited login steps, highway upload
frames and upload steps, upload requests and whole image, video and voice
message uploads, SILK stream framing, sampled SHA-1 of files, the P-256 key
exchange, pushed message routing and parsing, chat messages with their
market face, file, voice and video elements (voice and video elements
packed to send too), notice events and packet signing decisions.

- `src/` is the library. Every function carries a contract that Verus proves;
  calls into `sha1`, `md-5`, `hex`, `flate2`, `p256`, `rand`, `regex` and a few `std`
  functions (UTF-8 decoding, native byte order) stand behind small trusted
  items with stated contracts. TEA encryption is handed in by the caller.
- `tests/` runs the library on concrete values.
- `app/` holds what the verifier does not take: the `tokio_util` codec on
  byte streams, atomic sequence numbers, JSON for the sign server and the QR
  code server, JSON of special title notices, event downcasting and the login
  polling loop.
