//! Runtime selection between a hardware-accelerated and a software-rasterized
//! egui backend, as a verified one-shot state machine.
//!
//! `selection` holds the decision and its transitions, `probe` the rules by
//! which a platform gets its recommendation, `launcher` the launch itself,
//! `shared` the selection in a slot that threads share, `interop` the face
//! that the backend at hand shows to the application, and `store` the
//! mapping that the software backend persists.

pub mod backend;
pub mod interop;
pub mod launcher;
pub mod probe;
pub mod selection;
pub mod shared;
pub mod store;

pub use backend::Backend;
pub use interop::BackendInterop;
pub use launcher::{run_app, BackendConfiguration};
pub use probe::determine_backend;
pub use selection::{get_backend, is_launched, overwrite_backend};
