//! Decoder for the hardware-monitoring snapshot that MSI Afterburner publishes
//! in the `MAHMSharedMemory` file mapping, with the owned records handed to
//! callers in other languages.
//!
//! Every function here works on plain values: the mapped bytes come in as a
//! byte slice, and what has to be done with the operating system comes out as
//! a value that the caller acts on.

pub mod export;
pub mod monitor;
pub mod segment;
pub mod text;
pub mod wire;
