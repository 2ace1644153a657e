//! Board support for two Tock boards, the Nordic nRF52 DK and the WeAct
//! STM32F401CCU6 core board: which driver answers which system call, which pin
//! does what, and in what order a board comes up.

pub mod gpio;
pub mod memory;
pub mod nrf52dk;
pub mod syscall;
pub mod weact_f401cc;
