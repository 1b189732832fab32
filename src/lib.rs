//! Driver logic for the BESM-6 batch toolchain: input classification,
//! job-script generation, listing diagnostics and artifact finalization.

pub mod text;
pub mod path;
pub mod classify;
pub mod slots;
pub mod count;
pub mod plan;
pub mod script;
pub mod listing;
pub mod artifact;
pub mod session;
pub mod laws;
