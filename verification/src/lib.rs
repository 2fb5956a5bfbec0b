//! Lane spraying control: vegetation masks, lane reduction and valve timing.
//!
//! A frame goes through four stages. A [`vision::VegetationMask`] marks
//! each pixel as vegetation or not. [`lanes::reduce_lanes`] counts the
//! marked pixels of the bottom band in each of four vertical lanes. The
//! [`lanes::LaneController`] turns each lane's ratio and the time since the
//! previous frame into a valve state, with a minimum fire time, a holdoff
//! and hysteresis. An [`io_gpio::Actuator`] is handed the result. The
//! [`pipeline::Pipeline`] runs the four in this order, one frame at a time.
//!
//! Every fraction in this crate is a fixed-point integer counted in
//! millionths, so `1_000_000` stands for 1.0 and `8_000` for 0.008. A lane's
//! ratio is kept exactly, as the two pixel counts it is made of, and
//! compared with thresholds by cross-multiplication: no rounding takes
//! part in any decision.
//!
//! Cameras, files, hardware pins and threads are the caller's business.
//! The modules [`logging`], [`spray`], [`detection`] and [`session`] hold
//! the decisions of the detect-spray-log loop that a caller runs on top of
//! a computer-vision backend.

pub mod config;
pub mod detection;
pub mod error;
pub mod exg;
pub mod frame;
pub mod io_gpio;
pub mod lanes;
pub mod logging;
pub mod pipeline;
pub mod session;
pub mod spray;
pub mod text;
pub mod timing;
pub mod units;
pub mod vision;

pub use config::SprayCfg;
pub use error::InvalidInput;
