//! Input translation for a leverless, B0XX-style controller mapped onto a
//! four-button, two-stick console gamepad.
//!
//! Key presses from a keyboard are turned into analog stick coordinates,
//! trigger values and digital button events: directional modifiers, SOCD
//! resolution, shield layering, C-stick angles and a D-pad latch.

pub mod analog;
pub mod axis;
pub mod input;
pub mod keymap;
pub mod laws;
pub mod output;
pub mod pipe;
pub mod shield;
pub mod translator;

pub use analog::{Analog, Trigger, LIGHT_SHIELD, MEDIUM_SHIELD};
pub use axis::{AxisButtonState, AxisState, DualModeAxisState};
pub use input::{
    Axis, B0xx, B0xxEvent, B0xxRaw, Button, ButtonImpure, ButtonPure, Direction, GCButton, Impure,
    Pressed, Pure, Shield, Stick, TimeVal, NEGATIVE, POSITIVE, PRESSED, RELEASED,
};
pub use keymap::{KeyEvent, Remapper};
pub use output::{AStickInput, CStickInput, DolphinPipeInput, GCStickInput, Input};
pub use shield::ShieldState;
pub use translator::{B0xxState, CStickState, Main, StickState};
