//! Servo and SPI drivers for a robot controller's hardware abstraction layer.
//!
//! The library holds the decisions of each driver: how an angle becomes a
//! pulse position, which configuration a servo channel gets, which bus request
//! a read turns into, and how a bus return code becomes a result. Each
//! operation hands back the command that the hardware layer is to perform.
use vstd::prelude::*;

pub mod hal;
pub mod servo;
pub mod spi;
