//! The control register of a picture-processing unit: one byte written by the
//! CPU, decoded into the flags and addresses that the rest of the unit reads.

pub mod control_register;

pub use control_register::ControlRegister;
