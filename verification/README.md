# tock_boards

Board support for two boards of the Tock kernel:

- the Nordic nRF52 DK (`src/nrf52dk/`),
- the WeAct STM32F401CCU6 core board (`src/weact_f401cc/`).

`src/` is a Verus library. It decides which driver answers a system call
(`platform.rs`), which pin does what (`pins.rs`), in what order a board comes up
(`boot.rs`), and, for the STM32 board, which operations set the chip up
(`setup.rs`). What these leave behind is proved of a model of the chip
(`hardware.rs`). All of it is plain data: no heap, no I/O.

`app/` holds the kernel images. They walk through the boot order, perform each step
with the drivers of the Tock tree, and hand the resulting platform to the kernel.
