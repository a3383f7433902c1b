//! Link-time-optimization driver for freestanding targets.
//!
//! The library decides what the external LLVM tools are asked to do and how
//! their answers are read; the program around it runs them.

pub mod args;
pub mod error;
pub mod laws;
pub mod policy;
pub mod session;
pub mod text;
pub mod toolchain;

pub use args::{Args, Input, InputKind};
pub use error::{LinkerError, Stage};
pub use policy::{
    apply_target_overrides, reserved_symbol, LtoOptions,
    Optimization, Override, Target,
};
pub use session::{Action, Event, Phase, Session};
pub use text::{split_whitespace, starts_with};
pub use toolchain::{
    default_probe, host_version_query, llvm_major_version, pinned_probe, resolve_major,
    version_suffix, Command, ToolOutput,
};
