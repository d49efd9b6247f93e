//! Core logic of a serial command console for a small sensor board: a bounded
//! line buffer, an echoing line collector, a fixed-vocabulary command parser,
//! the surrounding retry loop, sensor report formatting, and an LED border
//! walk. All decisions are verified over plain byte sequences; the serial
//! transport and the sensor itself are driven by an unverified shell that
//! feeds events in and carries actions out.

pub mod buffer;
pub mod collector;
pub mod errors;
pub mod parser;
pub mod roulette;
pub mod sensor;
pub mod session;
pub mod text;
