//! The rules of a two-player table game in which the teams take turns lobbing a
//! ball at the six cups of a cluster: the shot state machine, the aim
//! parameters, the trajectory preview, the turn and score bookkeeping and the
//! layout of what is put back on the table after every shot.
//!
//! All quantities are fixed-point integers: angles in thousandths of a degree,
//! power in thousandths, lengths and impulses in millionths of a unit, time in
//! nanoseconds. Rendering, physics and input live outside this crate and talk
//! to it through plain values.

pub mod units;
pub mod objects;
pub mod aim;
pub mod control;
pub mod tracer;
pub mod light;
pub mod camera;
