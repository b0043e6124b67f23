//! Bounded history capture and rewind for simulation state.
//!
//! For any tracked value attached to a live object, the library records a
//! bounded history of past values, one entry per simulation tick, and replays
//! that history backward on demand, restoring prior states in LIFO order.

pub mod driver;
pub mod history;
pub mod laws;
pub mod settings;

pub use driver::any_exhausted;
pub use driver::capture_component;
pub use driver::capture_components;
pub use driver::drive_tick;
pub use driver::flag_after_rewind;
pub use driver::object_captured;
pub use driver::object_rewound;
pub use driver::rewind_component;
pub use driver::rewind_components;
pub use driver::TrackedObject;
pub use history::push_bounded;
pub use history::RewindComponent;
pub use settings::rewinding;
pub use settings::RewindPlugin;
pub use settings::RewindSettings;
pub use settings::Rewinding;
