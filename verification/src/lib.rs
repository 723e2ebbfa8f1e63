//! A PID controller on integers.
//!
//! `PIDController` computes an actuation value from a measurement and a
//! setpoint; `Controller` is the interface it offers, and `limit_range` the
//! bounding it is built on. Every function is verified against the model in
//! `model`, and `laws` holds what is proved of every controller.

pub mod controller;
pub mod laws;
pub mod model;
pub mod pid_controller;
pub mod quotient;
pub mod range;

pub use controller::Controller;
pub use pid_controller::DerivativeMode;
pub use pid_controller::Internal;
pub use pid_controller::PIDController;
pub use range::limit_range;
