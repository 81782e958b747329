//! Hardware inventory: normalisation of raw component reports, size
//! bucketing, homogeneity grouping and the summary lines of a report.
pub mod decimal;
pub mod inventory;
mod json;
pub mod mac;
pub mod model;
pub mod report;
pub mod sizing;
pub mod text;
pub mod windows;

pub use model::{
    Backend, Cpu, Disk, Hardware, HardwareError, Mac, MacAnswers, Memory, OptCPU, OptDisk,
    OptMemory, Win,
};
pub use sizing::{get_memory_type, rounding};
