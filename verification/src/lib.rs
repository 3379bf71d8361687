//! Driver for a bxCAN-style CAN bus controller, and for the two services of the interrupt
//! controller that such a driver is used with.
//!
//! The driver never touches memory itself. Every register access goes through a
//! [`bus::RegisterBus`], which the user supplies: the memory-mapped registers on a target,
//! a simulated controller on a host. Every driver operation states, as its contract, the
//! exact sequence of accesses that it makes on the bus, for whatever values the hardware
//! returns.
//!
//! - [`common`]: bits, masks and bit-field arithmetic
//! - [`bus`]: the bus, the record of accesses, and the read-modify-write operations
//! - [`bank`]: a register bank made of plain memory, to run the drivers without hardware
//! - [`layout`]: the register map of the CAN controller
//! - [`config`]: mode flags, bit timing, prescaler table
//! - [`frame`]: the CAN message and the packing of its payload
//! - [`sequence`]: the access sequence of each driver operation
//! - [`can`]: the driver
//! - [`laws`]: what holds of every run of the driver
//! - [`nvic`]: enabling an interrupt line and setting its priority

pub mod bank;
pub mod bus;
pub mod can;
pub mod common;
pub mod config;
pub mod frame;
pub mod laws;
pub mod layout;
pub mod nvic;
pub mod sequence;
