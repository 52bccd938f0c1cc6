# qubit_id

Snowflake-family ID generation with its logic proved by Verus.

- `src/` is the verified library: the Qubit and classic bit layouts (compose,
  decode and their round trips), the allocation state machine shared by
  every Snowflake generator (`SnowflakeCore`, `GenerationState`), the
  decisions of the Java-compatible Qubit generator, decimal formatting and
  parsing of `Id`, and the error and attempt values. It never reads a clock
  or waits: wall times enter as nanoseconds since the Unix epoch and retry
  delays leave as nanoseconds.
- `app/` drives that library: it reads `qubit_clock` wall clocks, waits on
  `qubit_clock` timers (blocking or async), converts between `SystemTime`,
  `Duration` and nanoseconds, and gives `Id` and the errors their `Display`,
  `Error` and serde forms.
- `tests/` exercises the library on concrete values.
