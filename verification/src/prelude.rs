pub use crate::app::BevyApp;
pub use crate::components::plan_component_merges;
pub use crate::delta_timer::SystemDeltaTimer;
pub use crate::erased_gd::{DynErasedGd, ErasedGd, TypedErasedGd};
