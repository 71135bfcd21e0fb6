//! The verified core of a terrain scene viewer: the index layout of the
//! terrain mesh, the state shared by the render passes, the camera's
//! movement keys and the decisions of the frame loop.

pub mod context;
pub mod frame;
pub mod input;
pub mod terrain;
