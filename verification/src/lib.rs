//! Planning and control logic for a renderer that draws one full-screen
//! triangle whose fragments pick their colour from a table of materials held
//! in a read-only storage buffer.
//!
//! Nothing in this crate talks to a window system or a GPU. It decides what
//! the surface configuration, the material buffer, the bind group and the
//! render pipeline look like, and it drives the frame loop as a state
//! machine: the caller feeds it events and performs the actions it returns.

pub mod features;
pub mod frame;
pub mod frame_loop;
pub mod material;
pub mod pipeline;
pub mod resources;
pub mod setup;
pub mod surface;
