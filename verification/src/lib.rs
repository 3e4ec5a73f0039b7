//! The bookkeeping of a Panini camera projection: the master switch of the
//! post-processing effect, and what a frame hands on to rendering because of it.
//!
//! The shader settings and the perspective projection are carried as type
//! parameters; this crate decides what happens to them, not how they are computed.

pub mod settings;

pub use settings::{PaniniProjection, ProjectionModel, SettingsCommand, copy_out_shader_settings};
