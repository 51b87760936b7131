# ec_service_lib

Request handling of the EC secure partition, verified with Verus.

- `src/payload.rs`: the 112-byte register payload of an FF-A direct message,
  little-endian reads and writes, and the read-back lemmas.
- `src/service.rs`: requests, responses, the FF-A calls a service may ask
  for, errors, and the `Service` trait.
- `src/message_handler.rs`: the chain of services and the routing laws.
- `src/services/`: firmware management, thermal, UCSI, and the battery
  status decoder for the EC relay; `parse_ffa_request`.
- `src/platform/battery.rs`: the QEMU platform's battery model.
- `app/`: the partition's `main`, the FF-A message loop and the relay calls.

Each service answers a request with a payload and, where needed, an FF-A
call (yield, notification, memory retrieval) that the caller makes before
it responds; the library decides, `app/` performs.
