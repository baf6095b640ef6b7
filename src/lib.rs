//! Verified core of an instanced, normal-mapped scene renderer: input
//! mapping, camera controller state, mesh index checking, vertex layouts,
//! instance grid placement, draw-command planning and the per-frame
//! decisions of the render loop.
pub mod controller;
pub mod draw;
pub mod frame;
pub mod layout;
pub mod model;
pub mod scene;
