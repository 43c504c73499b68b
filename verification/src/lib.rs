//! Building blocks for animated terminal user interfaces, on fixed-point
//! arithmetic.
//!
//! The core is a keyframe transition engine: easing curves, values that can
//! be blended, timelines of keyframes, the transition that plays a timeline
//! against a clock, ready-made transitions and a registry of named ones.
//! Progress, keyframe offsets and scalar values are integers counted in
//! millionths of a whole, so every curve and every blend is exact integer
//! arithmetic. Time is handed in by the caller as a monotonic tick count.
//!
//! Around the core stand the state of a few components (a modal dialog, a
//! list, a canvas of character cells, shapes, layouts and themes). Nothing
//! here reads a clock, polls a device or draws on a screen.

pub mod fixed;
pub mod easing;
pub mod interpolate;
pub mod keyframe;
pub mod transition;
pub mod presets;
pub mod registry;
pub mod animation;
pub mod state;
pub mod style;
pub mod effects;
pub mod scheme;
pub mod canvas;
pub mod events;
pub mod modal;
pub mod list;
pub mod layout;
pub mod shapes;
