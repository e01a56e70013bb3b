# emulator

An educational ARM emulator, verified with Verus.

- `src/` is the library: instruction decoding (`instructions`), the CPU
  state and condition codes (`cpu`), the memory bus with its RAM regions
  and mapped peripherals (`memory`), instruction execution (`execution`),
  the emulator with stepping and breakpoints (`emulator`), a GPIO port
  (`peripherals`) and random numbers from the host (`system`). Each
  function states its effect over a model: the bus as the bytes of its
  regions, the CPU as its registers and status register, and an outcome for
  each access that a peripheral answers.
- `tests/` runs the library on concrete programs and values.
- `app/` holds the Python bindings, the developer command line, error types
  with display messages, and host-memory views that need `unsafe`.
