//! The CAN link to the control panel.
pub mod health;
pub mod protocol;
pub mod tx;
