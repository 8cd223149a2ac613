# epaper

Driver logic for the GT911 capacitive touch controller of an e-paper board,
verified with Verus. Polling only; the INT pin is not used.

- `src/driver/gt911.rs`: the driver, the registers, and how status and touch
  data are decoded.
- `src/driver/touch_read.rs`: one poll of the controller, step by step.
- `src/driver/detection.rs`: the search for the controller's address.
- `src/driver/bus.rs`: bus requests and replies, and transcripts of them.
- `src/driver/laws.rs`: what holds of every poll and every search.
- `app/`: runs the operations on any `embedded_hal::i2c::I2c` bus.

An operation never touches the bus. It asks for a request, takes the reply,
and goes on until it is finished:

```rust
let mut read = gt911.read_touch();
let touch = loop {
    match read.next() {
        BusStep::Ask(request) => read = read.resume(perform(&mut i2c, request)),
        BusStep::Finished(touch) => break touch,
    }
};
```
