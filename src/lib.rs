//! Settings panel logic for a procedurally patterned sky shader: analog stick
//! smoothing, menu cursor navigation, per-cell parameter storage and fragment
//! shader text composition.

pub mod app_state;
pub mod control_panel;
pub mod gorgon1;
pub mod number_text;
pub mod shaders;
pub mod thumbstick_smoother;
