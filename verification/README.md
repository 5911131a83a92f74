# stm32f4xx-usart

A verified driver for the USARTs of the STM32F4xx whose data is moved by DMA streams.

The driver decides, and what is around it acts. Each call of the driver answers with a `Turn`:
commands for the registers and the DMA streams, and one thing that the driver waits for, such as
the content of a register, the buffer that a stream gives back, or a client that takes its buffer.
The outcome goes back to the driver, until the turn says that the call has ended. While a client
runs, it may use the driver.

- `src/usart.rs` is the driver, `src/turn.rs` what it answers with, `src/platform.rs` what it is
  told about its surroundings, `src/rcc.rs` and `src/uart.rs` the types of its interface.
- `src/fields.rs` and `src/registers.rs` describe the registers. Bits are taken out of and put into
  register contents by `tock-registers`, behind two functions with stated contracts.
- `src/state.rs` is the state machine that the contracts of the driver speak of.
- `src/events.rs`, `src/runs.rs`, `src/transfers.rs` and `src/consistency.rs` hold what is proved of
  several calls together: that calls end, what whole interrupts and whole transfers do, that the
  two directions do not disturb each other, and that the control bits follow the state.
- `app/` carries the turns out on the chip.
- `tests/` runs the driver against registers, streams and clients made of plain values.
