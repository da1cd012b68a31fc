//! Locomotion and animation control for one character.
//!
//! The character's model loads in the background. A watcher binds the idle
//! clip once the model's animation player has appeared; from then on a
//! controller maps each frame's input to a turn, a step forward and the
//! crossfades to request from the animation blender. The library decides;
//! the engine around it reads the keys, moves the transform and plays the
//! clips.
//!
//! Everything is counted in whole numbers: crossfades in milliseconds,
//! distances in thousandths of a world unit, angles in binary angle units
//! (2^32 to the full turn).

pub mod character;
pub mod clips;
pub mod controller;
pub mod input;
pub mod laws;
pub mod transition;

pub use character::CharacterInstance;
pub use clips::{AnimationCatalog, ClipName, ClipRef, ConfigError};
pub use controller::{ControllerConfig, FrameOutcome, LocomotionController};
pub use input::{InputSnapshot, KeyLevels, KeyState};
pub use transition::{LocomotionState, TransitionRequest};
