//! Hardware abstraction layer for the MAX32660 microcontroller, centred on a
//! verified I2C master transaction engine.
//!
//! The register block of the I2C controller is abstracted by the
//! [`bus::I2cRegs`] trait, whose contracts are stated over an abstract
//! [`bus::BusModel`].  The transaction engine in [`i2c`] is verified against
//! those contracts alone, so everything it guarantees holds for any register
//! interface that meets them.  [`sim`] provides a verified simulated bus for
//! exercising the engine off-target.

pub mod bus;
pub mod encoder;
pub mod gpio;
pub mod i2c;
pub mod sim;
pub mod sys;
pub mod timer;
pub mod uart;
