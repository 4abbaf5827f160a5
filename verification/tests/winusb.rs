use nusb::winusb::{check, control_timeout_policy, raw_io_policy};

#[test]
fn check_reads_the_bool_result() {
    assert_eq!(check(0, 87), Err(87));
    assert_eq!(check(1, 87), Ok(()));
    assert_eq!(check(-1, 0), Ok(()));
}

#[test]
fn winusb_pipe_policies() {
    let p = control_timeout_policy();
    assert_eq!((p.pipe_id, p.policy_type, p.value), (0, 3, vec![0, 0, 0, 0]));
    let p = raw_io_policy(0x81);
    assert_eq!((p.pipe_id, p.policy_type, p.value), (0x81, 7, vec![1]));
}
