# rofi_mode

A Verus-verified core for writing Rofi plugin modes.

- `src/string.rs`: the nul-terminated UTF-8 `String` buffer and its capacity policy.
- `src/order.rs`: the lexicographic order of strings.
- `src/api.rs`: the display-name slot of the Rofi API and icon requests.
- `src/event.rs`: decoding Rofi's result codes into events and encoding actions.
- `src/convert.rs`: conversions of values crossing Rofi's C interface.
- `app/`: the unverified glue to Rofi's C interface (the `Mode` trait, the exported
  callbacks, icons, text attributes and matchers).
