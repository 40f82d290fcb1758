//! Userspace command layer for the s390 Ultravisor device.
//!
//! The crate models the fixed wire structures exchanged with the uvdevice
//! driver, the ioctl-number encoding for its control operation, and the
//! interpretation of the two-tier response codes the Ultravisor reports.
//! The device file itself and the raw ioctl live outside this crate; they
//! hand byte images and result codes in and take byte images back.

pub mod ffi;
pub mod uvdevice;
