//! The WeAct STM32F401CCU6 core board.

pub mod boot;
pub mod hardware;
pub mod pins;
pub mod platform;
pub mod setup;
