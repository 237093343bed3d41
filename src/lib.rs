//! Per-tick update systems of an agent-based traffic and crowd simulation.

pub mod car_system;
pub mod components;
pub mod humans;
pub mod vector;
pub mod world;
