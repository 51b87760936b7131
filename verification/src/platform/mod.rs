//! Services of the QEMU platform's secure partition.

pub mod battery;
