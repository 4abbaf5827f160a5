use nusb::win32;

#[test]
fn win32_values_match_windows_sys() {
    assert_eq!(win32::FALSE, windows_sys::Win32::Foundation::FALSE);
    assert_eq!(win32::TRUE, windows_sys::Win32::Foundation::TRUE);
    assert_eq!(win32::ERROR_IO_PENDING, windows_sys::Win32::Foundation::ERROR_IO_PENDING);
    assert_eq!(win32::ERROR_SEM_TIMEOUT, windows_sys::Win32::Foundation::ERROR_SEM_TIMEOUT);
    assert_eq!(win32::STATUS_TIMEOUT, windows_sys::Win32::Foundation::STATUS_TIMEOUT);
    assert_eq!(
        win32::PIPE_TRANSFER_TIMEOUT,
        windows_sys::Win32::Devices::Usb::PIPE_TRANSFER_TIMEOUT
    );
    assert_eq!(win32::RAW_IO, windows_sys::Win32::Devices::Usb::RAW_IO);
}
