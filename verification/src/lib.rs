//! The verified core of the TetaNES front end: the state that the on-screen
//! gamepad keeps between frames, and the decisions that the Android platform
//! layer makes around its calls into the Java runtime.

pub mod android;
pub mod virtual_gamepad;
