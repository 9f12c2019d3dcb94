//! GPU detection, device selection, runtime compatibility and fallback.

pub mod detect;
pub mod device;
pub mod diagnostics;
pub mod error;
pub mod fallback;
pub mod select;
pub mod settings;
pub mod version;
