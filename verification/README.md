# btleplug_client

The core of an Erlang/Elixir NIF that bridges Bluetooth Low Energy: central
(client) mode on `btleplug`, peripheral (server) mode on `ble-peripheral-rust`,
and a small demonstration GATT server on `bluster`.

- `src/` is a Verus library. It holds the decisions and data transformations:
  the UUID catalogue and value decoding (`utils`), UUID parsing and printing
  (`uuids`), the request book-keeping and event handling of the peripheral mode
  (`peripheral_manager_state`, `peripheral_manager`, `peripheral_types`), the
  caches, searches, state machines and adapter reports of the central mode
  (`central_manager*`, `peripheral`), the demonstration server's behaviour
  (`gatt_peripheral`) and the logging set-up (`logging`). Every function has a
  contract that Verus proves; the few calls into `uuid`, `log`, `tokio` and std
  that Verus cannot read stand behind small trusted wrappers whose doc comments
  say what is assumed of them.
- `app/` is the NIF itself: it talks to the radio and to the VM, converts
  terms, and calls the library for every decision.
- `tests/` exercise the library on concrete values.
