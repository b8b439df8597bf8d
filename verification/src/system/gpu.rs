pub mod types;
pub mod memory;
pub mod data;
pub mod rendering;
pub mod backend_dispatch;
pub mod command_gp0_impl;
pub mod command_gp0;
pub mod command_gp1;
pub mod controller;
pub mod crtc;
pub mod laws;
