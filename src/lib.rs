//! Scene logic of an interactive rendering harness: switchable techniques,
//! their render-target sizing, per-frame command plans with debug scopes, and
//! shader build diagnostics. The GPU itself is driven by the host from the
//! command plans produced here.

pub mod blurring;
pub mod command;
pub mod kawase;
pub mod key;
pub mod round_quads;
pub mod scenes;
pub mod shader;
pub mod target;

pub use scenes::Scenes;
