//! Hardware and software performance counters for Linux, modelled as
//! verified decisions: the ioctl command words, the catalog of countable
//! events, the kernel attribute layout, the control protocol of one counter
//! descriptor and the launch-under-barrier measurement session.
//!
//! The kernel calls themselves are made by the caller, which hands each
//! raw result back to the functions of this crate.
pub mod ioctl;
pub mod error;
pub mod catalog;
pub mod layout;
pub mod fd;
pub mod event;
pub mod stat;
pub mod command;
