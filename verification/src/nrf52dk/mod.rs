//! The Nordic Semiconductor nRF52 development kit (DK), also known as PCA10040.

pub mod boot;
pub mod pins;
pub mod platform;
