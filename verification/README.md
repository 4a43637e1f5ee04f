# esp_idf_matter

The decision logic of a Matter stack that runs on ESP-IDF, verified with Verus.

- `src/` is the library. `ble` is the GATT peripheral for BTP, `netif` the state of a network
  interface, `wifi` and `thread` the network controllers, `persist` and `nvs` the storage. What
  involves a driver is written as a step function: it says what to do next, and is told how that
  went. `bounded` holds what is trusted of `heapless`.
- `tests/` runs the library on concrete values.
- `app/` drives the library: it makes the calls into ESP-IDF and implements the traits of
  `rs-matter` and `rs-matter-stack`.

What holds of the library as a whole is stated by the public proof functions whose names begin
with `law_`.
