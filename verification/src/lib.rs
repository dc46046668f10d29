//! Frame-preview state machine: which script output and frame to show,
//! when a frame must be rendered again, and how the keyboard moves
//! through the frames and outputs of a script.
pub mod filter;
pub mod input;
pub mod key_laws;
pub mod laws;
pub mod outputs;
pub mod previewer;
pub mod step_laws;
