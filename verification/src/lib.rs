//! Validated logical sector sizes for GPT disks, and the platform-independent
//! interpretation of sector-size probes.

pub mod decimal;
pub mod disk;
