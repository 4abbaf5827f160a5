//! Verified core of the Windows back end of a USB library: driver
//! selection, the libusb0.sys IOCTL requests and their byte layout, and the
//! decisions taken on the results that the operating system hands back.
pub mod direction;
pub mod driver;
pub mod libusb0;
pub mod win32;
pub mod winusb;
