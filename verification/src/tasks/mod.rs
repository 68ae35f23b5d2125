//! The decisions that each task of the board takes.
pub mod can_communication;
pub mod can_debug;
pub mod can_manager;
pub mod can_manager_laws;
pub mod espnow;
pub mod servo;
pub mod status_led;
pub mod supervisor;
pub mod supervisor_laws;
