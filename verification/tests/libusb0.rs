use nusb::libusb0::{
    claim_interface, ctl_code, ioctl_outcome, ioctl_submitted, pipe_timeout_ms, release_interface,
    reset_endpoint, set_alt_setting, submit, ControlPipe, PipePolicy, Request, SetupPacket,
    DEFAULT_TIMEOUT_MS, IOCTL_CLAIM_INTERFACE, IOCTL_CONTROL_READ, IOCTL_CONTROL_WRITE,
    IOCTL_INTERRUPT_OR_BULK_READ, IOCTL_INTERRUPT_OR_BULK_WRITE, IOCTL_RELEASE_INTERFACE,
    IOCTL_RESET_ENDPOINT, IOCTL_SET_INTERFACE, IOCTL_SET_PIPE_POLICY, METHOD_BUFFERED,
    METHOD_IN_DIRECT, METHOD_OUT_DIRECT, PIPE_TRANSFER_TIMEOUT,
};

#[test]
fn test_control_request_layout() {
    let r = Request::control(SetupPacket {
        request_type: 0x40,
        request: 0x0c,
        value: 0x1234,
        index: 0x0471,
        length: 0x1000,
    });
    let bytes = r.to_bytes();
    assert_eq!(bytes.len(), 24);
    assert_eq!(
        &bytes[4..12],
        &[0x40, 0x0c, 0x34, 0x12, 0x71, 0x04, 0x00, 0x10]
    );
}

#[test]
fn control_request_words() {
    let r = Request::control(SetupPacket {
        request_type: 0xc0,
        request: 0x51,
        value: 0xabcd,
        index: 0x0102,
        length: 0xffff,
    });
    assert_eq!(r.timeout, 0);
    assert_eq!(r.args, [0xabcd_51c0, 0xffff_0102, 0, 0, 0]);
    assert_eq!(
        r.to_bytes(),
        vec![
            0, 0, 0, 0, 0xc0, 0x51, 0xcd, 0xab, 0x02, 0x01, 0xff, 0xff, 0, 0, 0, 0, 0, 0, 0, 0,
            0, 0, 0, 0
        ]
    );
}

#[test]
fn ctl_code_builds_device_codes() {
    assert_eq!(ctl_code(0x803, METHOD_BUFFERED), 0x0022_200C);
    assert_eq!(ctl_code(0x90B, METHOD_OUT_DIRECT), 0x0022_242E);
    assert_eq!(ctl_code(0, 0), 0x0022_0000);
    assert_eq!(ctl_code(0xfff, 3), 0x0022_3fff);
}

#[test]
fn ioctl_codes_are_the_ctl_codes_of_their_functions() {
    assert_eq!(IOCTL_SET_INTERFACE, ctl_code(0x803, METHOD_BUFFERED));
    assert_eq!(IOCTL_INTERRUPT_OR_BULK_WRITE, ctl_code(0x80A, METHOD_IN_DIRECT));
    assert_eq!(IOCTL_INTERRUPT_OR_BULK_READ, ctl_code(0x80B, METHOD_OUT_DIRECT));
    assert_eq!(IOCTL_RESET_ENDPOINT, ctl_code(0x80E, METHOD_BUFFERED));
    assert_eq!(IOCTL_CLAIM_INTERFACE, ctl_code(0x815, METHOD_BUFFERED));
    assert_eq!(IOCTL_RELEASE_INTERFACE, ctl_code(0x816, METHOD_BUFFERED));
    assert_eq!(IOCTL_SET_PIPE_POLICY, ctl_code(0x906, METHOD_BUFFERED));
    assert_eq!(IOCTL_CONTROL_WRITE, ctl_code(0x90A, METHOD_IN_DIRECT));
    assert_eq!(IOCTL_CONTROL_READ, ctl_code(0x90B, METHOD_OUT_DIRECT));
}

#[test]
fn request_builders() {
    let r = Request::interface(3);
    assert_eq!((r.timeout, r.args), (0, [3, 0, 0, 0, 0]));
    let r = Request::alt_setting(2, 5);
    assert_eq!((r.timeout, r.args), (5000, [2, 5, 0, 0, 0]));
    let r = Request::endpoint(0x81);
    assert_eq!((r.timeout, r.args), (DEFAULT_TIMEOUT_MS, [0x81, 0, 0, 0, 0]));
    assert_eq!(
        r.to_bytes(),
        vec![0x88, 0x13, 0, 0, 0x81, 0, 0, 0, 0, 0, 0, 0, 0, 0, 0, 0, 0, 0, 0, 0, 0, 0, 0, 0]
    );
}

#[test]
fn interface_and_endpoint_ioctls() {
    let io = claim_interface(1);
    assert_eq!((io.code, io.request.timeout, io.request.args), (IOCTL_CLAIM_INTERFACE, 0, [1, 0, 0, 0, 0]));
    let io = release_interface(4);
    assert_eq!((io.code, io.request.timeout, io.request.args), (IOCTL_RELEASE_INTERFACE, 0, [4, 0, 0, 0, 0]));
    let io = set_alt_setting(1, 2);
    assert_eq!((io.code, io.request.timeout, io.request.args), (IOCTL_SET_INTERFACE, 5000, [1, 2, 0, 0, 0]));
    let io = reset_endpoint(0x02);
    assert_eq!((io.code, io.request.timeout, io.request.args), (IOCTL_RESET_ENDPOINT, 5000, [2, 0, 0, 0, 0]));
}

#[test]
fn submit_picks_read_or_write_by_direction() {
    let io = submit(0x02);
    assert_eq!(io.code, IOCTL_INTERRUPT_OR_BULK_WRITE);
    assert_eq!(io.request.args, [0x02, 0, 0, 0, 0]);
    assert_eq!(io.request.timeout, 5000);
    let io = submit(0x83);
    assert_eq!(io.code, IOCTL_INTERRUPT_OR_BULK_READ);
    assert_eq!(io.request.args, [0x83, 0, 0, 0, 0]);
}

#[test]
fn pipe_timeout_is_clamped_to_one_and_u32_max() {
    assert_eq!(pipe_timeout_ms(0), 1);
    assert_eq!(pipe_timeout_ms(1), 1);
    assert_eq!(pipe_timeout_ms(1500), 1500);
    assert_eq!(pipe_timeout_ms(u32::MAX as u128), u32::MAX);
    assert_eq!(pipe_timeout_ms(u32::MAX as u128 + 1), u32::MAX);
    assert_eq!(pipe_timeout_ms(u128::MAX), u32::MAX);
    let d = std::time::Duration::from_micros(2500);
    assert_eq!(pipe_timeout_ms(d.as_millis()), 2);
}

#[test]
fn control_transfer_plan_for_a_read() {
    let pkt = SetupPacket { request_type: 0x80, request: 0x06, value: 0x0100, index: 0, length: 18 };
    let plan = ControlPipe::transfer_plan(pkt, 1000);
    assert_eq!(plan.policy_code, IOCTL_SET_PIPE_POLICY);
    assert_eq!(plan.policy.request.timeout, 0);
    assert_eq!(plan.policy.request.args, [0, 0x80, PIPE_TRANSFER_TIMEOUT, 0, 0]);
    assert_eq!(plan.policy.value, 1000);
    assert_eq!(plan.transfer.code, IOCTL_CONTROL_READ);
    assert_eq!(plan.transfer.request.args, Request::control(pkt).args);
    assert_eq!(
        plan.policy.to_bytes(),
        vec![0, 0, 0, 0, 0, 0, 0, 0, 0x80, 0, 0, 0, 3, 0, 0, 0, 0, 0, 0, 0, 0, 0, 0, 0, 0xe8, 0x03, 0, 0]
    );
}

#[test]
fn control_transfer_plan_for_a_write() {
    let pkt = SetupPacket { request_type: 0x21, request: 0x09, value: 0x0200, index: 1, length: 8 };
    let plan = ControlPipe::transfer_plan(pkt, 0);
    assert_eq!(plan.policy_code, IOCTL_SET_PIPE_POLICY);
    assert_eq!(plan.policy.request.args, [0, 0x00, 3, 0, 0]);
    assert_eq!(plan.policy.value, 1);
    assert_eq!(plan.transfer.code, IOCTL_CONTROL_WRITE);
    assert_eq!(plan.transfer.request.timeout, 0);
    assert_eq!(plan.transfer.request.args, [0x0200_0921, 0x0008_0001, 0, 0, 0]);
}

#[test]
fn pipe_policy_bytes() {
    let p = PipePolicy { request: Request::interface(7), value: 0x0102_0304 };
    let b = p.to_bytes();
    assert_eq!(b.len(), 28);
    assert_eq!(&b[24..], &[4, 3, 2, 1]);
    assert_eq!(&b[4..8], &[7, 0, 0, 0]);
}

#[test]
fn ioctl_submission() {
    assert!(ioctl_submitted(1, 0));
    assert!(ioctl_submitted(1, 5));
    assert!(ioctl_submitted(0, 997));
    assert!(!ioctl_submitted(0, 5));
    assert!(!ioctl_submitted(0, 0));
}

#[test]
fn ioctl_outcomes() {
    assert_eq!(ioctl_outcome(true, 1, 0, 64, 0), Ok(64));
    assert_eq!(ioctl_outcome(true, 1, 0x102, 64, 0), Err(121));
    assert_eq!(ioctl_outcome(true, 0, 0, 64, 31), Err(31));
    assert_eq!(ioctl_outcome(false, 1, 0, 64, 2), Err(2));
    assert_eq!(ioctl_outcome(false, 0, 0x102, 0, 6), Err(6));
}

#[test]
fn control_pipe_lock() {
    let pipe = ControlPipe::default();
    let guard = pipe.0.lock().unwrap();
    drop(guard);
    assert!(pipe.0.try_lock().is_ok());
}
