//! The Win32 values that the library's decisions read, under the names and
//! types that `windows_sys` gives them (the tests hold each one to the value
//! that `windows_sys` declares).
use vstd::prelude::*;
use windows_sys::Win32::Devices::Usb::WINUSB_PIPE_POLICY;
use windows_sys::Win32::Foundation::{NTSTATUS, WIN32_ERROR};

verus! {

/// The `BOOL` that a failed Win32 call returns.
pub const FALSE: windows_sys::core::BOOL = 0i32;

/// The `BOOL` that a Win32 call takes for "yes".
pub const TRUE: windows_sys::core::BOOL = 1i32;

/// The overlapped operation was queued and has not completed yet.
pub const ERROR_IO_PENDING: WIN32_ERROR = 997u32;

/// The semaphore timeout period has expired.
pub const ERROR_SEM_TIMEOUT: WIN32_ERROR = 121u32;

/// The success status with which the kernel completes a request that timed out.
pub const STATUS_TIMEOUT: NTSTATUS = 0x102i32;

/// WinUSB pipe policy: the transfer timeout of a pipe, in milliseconds.
pub const PIPE_TRANSFER_TIMEOUT: WINUSB_PIPE_POLICY = 3u32;

/// WinUSB pipe policy: raw I/O on a bulk or interrupt IN pipe.
pub const RAW_IO: WINUSB_PIPE_POLICY = 7u32;

} // verus!
