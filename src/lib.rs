//! The resource pipeline of an image viewer: per-image load slots, cyclic
//! distances over the image list, the scheduler that picks the next image to
//! load, the eviction sweep, the coordinator's handoff with the load worker,
//! the worker's load jobs, and the on-disk thumbnail cache's naming and
//! staleness rules. Around them: the commands that scripts run on the viewer,
//! and the readers of the names that scripts and keybindings use.

// Slots, distances and the table
pub mod gallery;
pub mod image;
pub mod load_state;
pub mod offset;
pub mod rlens;

// Loading
pub mod cache;
pub mod image_loader;
pub mod load_request;
pub mod program;

// Commands and their inputs
pub mod command;
pub mod command_types;
pub mod hooks;
pub mod image_transform;
pub mod input;
pub mod lua;
pub mod status_bar;
pub mod util;
