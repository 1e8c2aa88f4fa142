//! A configurable HTTP test-fixture responder.
//!
//! The library decides, for each request path, what the server answers:
//! a file of the hosted directory, an empty reply with a status code, or a
//! fixed status code. The transport, the file system and the clock stay
//! with the caller, which hands the library plain values and acts on the
//! plain values it returns.
mod text;

pub mod delay;
pub mod fixed_code;
pub mod reply;
pub mod responder;
pub mod target;

pub use delay::Delay;
pub use fixed_code::{fixed_code_settings, parse_u16, FixedCodeSettings, SettingError};
pub use reply::{Body, Opened, Reply};
pub use responder::{ServerResponder, ServerResponderBuilder, Step};
pub use target::{resolve_target, Target};
