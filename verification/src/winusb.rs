//! The decisions of the WinUSB back end: reading a `BOOL` result, and the
//! pipe policies that the back end sets.
use vstd::prelude::*;
use windows_sys::Win32::Devices::Usb::WINUSB_PIPE_POLICY;
use windows_sys::Win32::Foundation::WIN32_ERROR;

use crate::libusb0::le32;
use crate::win32::{FALSE, PIPE_TRANSFER_TIMEOUT, RAW_IO};

verus! {

/// The result of a WinUSB call that returned `r`: the error that
/// `GetLastError` reported right after it (`last_error`) where `r` is
/// `FALSE`, success otherwise.
pub fn check(r: windows_sys::core::BOOL, last_error: WIN32_ERROR) -> (res: Result<(), WIN32_ERROR>)
    ensures
        r == FALSE ==> res == Err::<(), WIN32_ERROR>(last_error),
        r != FALSE ==> res == Ok::<(), WIN32_ERROR>(()),
{
    if r == FALSE {
        Err(last_error)
    } else {
        Ok(())
    }
}

/// A pipe policy to hand to `WinUsb_SetPipePolicy`: the pipe, the policy
/// and the bytes of its value.
pub struct PipePolicySetting {
    pub pipe_id: u8,
    pub policy_type: WINUSB_PIPE_POLICY,
    pub value: Vec<u8>,
}

/// The policy that turns off WinUSB's own timeout on the control pipe
/// (pipe 0x00): a `u32` of 0, so that the library times control transfers
/// out itself.
pub fn control_timeout_policy() -> (p: PipePolicySetting)
    ensures
        p.pipe_id == 0,
        p.policy_type == PIPE_TRANSFER_TIMEOUT,
        p.value@ == le32(0),
        p.value@ == seq![0u8, 0u8, 0u8, 0u8],
{
    let timeout: u32 = 0;
    let mut value: Vec<u8> = Vec::new();
    value.push(timeout as u8);
    value.push((timeout >> 8u32) as u8);
    value.push((timeout >> 16u32) as u8);
    value.push((timeout >> 24u32) as u8);
    assert((0u32 as u8) == 0u8 && ((0u32 >> 8u32) as u8) == 0u8 && ((0u32 >> 16u32) as u8)
        == 0u8 && ((0u32 >> 24u32) as u8) == 0u8) by (bit_vector);
    assert(value@ =~= le32(0));
    assert(value@ =~= seq![0u8, 0u8, 0u8, 0u8]);
    PipePolicySetting { pipe_id: 0x00, policy_type: PIPE_TRANSFER_TIMEOUT, value }
}

/// The policy that turns on raw I/O on an endpoint: a `u8` of 1.
pub fn raw_io_policy(endpoint: u8) -> (p: PipePolicySetting)
    ensures
        p.pipe_id == endpoint,
        p.policy_type == RAW_IO,
        p.value@ == seq![1u8],
{
    let enable: u8 = 1;
    let mut value: Vec<u8> = Vec::new();
    value.push(enable);
    assert(value@ =~= seq![1u8]);
    PipePolicySetting { pipe_id: endpoint, policy_type: RAW_IO, value }
}

} // verus!
