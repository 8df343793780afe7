//! A composable struct-validation core.
//!
//! A value reports its own failures as an ordered list of [`ValidationError`]s,
//! each holding a field path and a message. A composite value aggregates its
//! members' failures into one flat list, prepending each member's declared
//! name to the paths it contributes, so every error is addressed by a dotted
//! path from the root (for example `user.address.street`).

pub mod compose;
pub mod error;
pub mod validate;

pub use compose::Composer;
pub use error::ErrorSpec;
pub use error::ValidationError;
pub use validate::Validate;
