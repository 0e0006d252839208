//! Game installation discovery and backend-worker supervision for a
//! desktop launcher.

pub mod text;
pub mod vdf;
pub mod detect;
pub mod scan;
pub mod sidecar;
pub mod launch;
