//! Driver core for the JPF4826 four-channel PWM fan controller.
//!
//! The controller exposes its configuration and telemetry as a table of
//! 16-bit holding registers, reached over a half-duplex serial line with
//! Modbus-RTU framing. This crate holds the whole protocol stack without
//! performing any I/O itself: the value codec, the register map, the frame
//! codec, the transport session, and the controller client as a state
//! machine that asks its caller to carry out one frame exchange at a time.
//!
//! # Example
//!
//! ```
//! use jpf4826_driver::mock::MockController;
//! use jpf4826_driver::{Jpf4826Client, Outcome};
//!
//! let mut controller = MockController::new();
//! let mut client = Jpf4826Client::new(1).unwrap();
//! let first = client.temperature();
//! match controller.serve(&mut client, first) {
//!     Ok(Outcome::Temperature(reading)) => assert_eq!(reading.value, 31),
//!     other => panic!("{:?}", other),
//! }
//! ```

pub use client::Jpf4826Client;
pub use error::{ErrorKind, Jpf4826Error};
pub use modbus::{Reply, DEFAULT_TIMEOUT};
pub use operation::{Outcome, Stage, Step};
pub use types::{
    ControllerStatus, FanInfo, FanStatus, OperatingMode, PwmFrequency, Temperature,
    TemperatureUnit, WorkMode,
};

pub mod client;
pub mod commands;
pub mod conversions;
pub mod crc;
pub mod error;
pub mod frame;
pub mod mock;
pub mod modbus;
pub mod operation;
pub mod output;
pub mod registers;
pub mod text;
pub mod types;
