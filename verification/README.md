# mtp2

A verified MTP2 (Message Transfer Part Level 2) signal-unit codec and signalling-link
state machine: the SS7 data-link layer that turns a single 64 kbit/s timeslot into a
reliable link for level 3. It does no I/O.

| Piece | Where |
|---|---|
| Signal-unit header, FISU / LSSU / MSU framing | `src/signal_unit.rs` |
| Link state machine, and the model its contracts speak of | `src/link.rs`, `src/link_model.rs` |
| Error-rate monitors (AERM, SUERM) | `src/monitor.rs` |
| Basic and preventive cyclic retransmission | `src/retransmission.rs` |
| Typed errors and their texts | `src/error.rs`, `src/text.rs` |
| Event names, representations, configuration by name | `src/report.rs` |
| What holds of all of these together | `src/laws/` |
| Python bindings (PyO3) and `std::error::Error` | `app/` |

Every function in `src/` is verified with Verus. The contracts are stated over
mathematical views: a link is a `LinkView`, and each operation is a function from one
view to the next (`started`, `received`, `ticked`, ...). The laws are proof functions over
the same views: units survive the wire; the two sides of a link deliver every MSU exactly
once and in order, as long as fewer than 128 are unacknowledged and nothing comes so late
that its sequence number is taken for another; an alignment without errors reaches In
Service; and so on.

A link is driven from outside:

```rust
use mtp2::{Mtp2Config, Mtp2Link, SignalUnit};

let mut link = Mtp2Link::new(Mtp2Config::default());
link.start();
loop {
    if let Some(su) = link.poll_transmit() {
        // put su.encode() on the timeslot
    }
    // link.handle_su(&SignalUnit::decode(bytes)?) for what came in,
    // link.handle_corrupted_su() for what came in with bad check bits
    link.tick();
    while let Some(event) = link.poll_event() {
        // hand it to level 3
    }
}
```

Flag delimitation, bit stuffing and the check bits are the line framer's job.
