//! Output transports for receipt and label printers.
//!
//! The USB transport is the heart of the crate: it finds a printer on a
//! described bus, remembers where its writable endpoint lives, buffers
//! everything written to it and, on flush, plays the buffered bytes to the
//! device as one bulk transfer behind a reset and a reconfiguration.
//!
//! All bus traffic is performed by the caller. The crate decides *what* has
//! to happen next and *what the outcome means*; every decision is stated as a
//! contract and proved.

pub mod descriptor;
pub mod discovery;
pub mod session;
pub mod device;
