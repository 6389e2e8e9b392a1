# device_driver

Tools for the low-level part of device drivers: registers held as raw
bytes, bit fields inside them, and the steps that read, write and modify a
register through a device interface.

- `src/bitfield.rs`: the bit-level model (bit orders, segment orders, the
  number a bit range holds) and the field transfers, which call `bitvec`.
- `src/value.rs`: the integer types a field is read as or written from.
- `src/register.rs`: fields, and the reader `R` and writer `W` of a register.
- `src/error.rs`: the error of a converting read and its text.
- `src/transaction.rs`: read, write and modify as request/answer steps.
- `src/laws.rs`: read-after-write, independence of disjoint fields,
  determinism and commutation of writes, zero registers.
- `app/lib.rs`: the asynchronous interface trait, the accessors that run
  the transactions over it, and the `implement_registers_async!` macro that
  declares a device's registers and fields on top of the library.

Everything under `src/` is verified with Verus except its trusted items,
whose contracts Verus takes on faith: the eighteen bit-field transfers in
`src/bitfield.rs` that call `bitvec` (`BitField::load_le`, `load_be`, `load`,
`store_le`, `store_be`, `store` on `u8` buffers of either bit order), and
`push_char` in `src/error.rs`, which calls `String::push`. The tests in
`tests/model_tests.rs` hold the `bitvec` transfers to their contracts over
every range of a few buffers. `app/` is ordinary Rust.
