//! Core of a small real-time scene renderer: the discrete decisions that drive
//! the free-fly camera's input, the frame and surface lifecycle, the render
//! pass plan, the instance grid and the text console.

pub mod assets;
pub mod block;
pub mod console;
pub mod controller;
pub mod events;
pub mod frame;
pub mod grid;
pub mod layout;
pub mod pass;
pub mod utils;
