//! Verified planning logic of a GPU Barnes–Hut N-body simulation: workgroup
//! counts, buffer layouts, the command sequences recorded for each frame, the
//! keyboard and mouse-button state machine, and the consistency check of the
//! built BVH tree.

pub mod dispatch;
pub mod tree_check;
pub mod key_set;
pub mod input;
pub mod commands;
pub mod radix_sort;
pub mod simulator;
pub mod simulation;
pub mod renderer;
pub mod camera;
pub mod radix_model;
