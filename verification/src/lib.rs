//! Remote control core for a six-axis robot arm running soil-interaction
//! trials: the framed request/response wire protocol, the device session and
//! its poll cycle, the trajectory-execution state machine, the force-feedback
//! controller family, and the cross-thread sensor-trigger protocol.
//!
//! Physical quantities (millimetres, newtons, controller gains) are carried as
//! fixed-point values in micro-units, so every control law and every piece of
//! protocol formatting is exact integer arithmetic.

pub mod fixed;
pub mod geom;
pub mod wire;
pub mod command;
pub mod parse;
pub mod session;
pub mod force_control;
pub mod trigger;
pub mod executor;
pub mod egm;
pub mod analysis;
