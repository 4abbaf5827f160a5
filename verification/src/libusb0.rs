//! The IOCTL interface of libusb0.sys (libusb-win32's `driver_api.h`): the
//! control codes, the `libusb_request` block and its byte layout, the requests
//! that each operation sends, and what a finished request is answered.
use vstd::prelude::*;
use windows_sys::Win32::Foundation::WIN32_ERROR;

use crate::direction::{direction_of, lemma_direction_is_bit_seven, Direction};
use crate::win32::{ERROR_IO_PENDING, ERROR_SEM_TIMEOUT, FALSE, STATUS_TIMEOUT};

verus! {

/// `FILE_DEVICE_UNKNOWN`, the device type of every libusb0 control code.
pub const FILE_DEVICE_UNKNOWN: u32 = 0x22;

pub const METHOD_BUFFERED: u32 = 0;

pub const METHOD_IN_DIRECT: u32 = 1;

pub const METHOD_OUT_DIRECT: u32 = 2;

/// `CTL_CODE(FILE_DEVICE_UNKNOWN, function, method, FILE_ANY_ACCESS)`.
pub open spec fn spec_ctl_code(function: u32, method: u32) -> u32 {
    (FILE_DEVICE_UNKNOWN << 16u32) | (function << 2u32) | method
}

/// Builds a device I/O control code for libusb0.sys from its function number
/// and its buffering method. For a function number of 12 bits and a method of
/// 2 bits the fields can be read back out of the code.
pub fn ctl_code(function: u32, method: u32) -> (code: u32)
    ensures
        code == spec_ctl_code(function, method),
        function < 0x1000 && method < 4 ==> {
            &&& code as int == 0x22_0000 + function * 4 + method
            &&& code >> 16u32 == FILE_DEVICE_UNKNOWN
            &&& (code >> 14u32) & 3 == 0
            &&& (code >> 2u32) & 0xfff == function
            &&& code & 3 == method
        },
{
    let code: u32 = (FILE_DEVICE_UNKNOWN << 16u32) | (function << 2u32) | method;
    proof {
        if function < 0x1000 && method < 4 {
            assert({
                &&& code as int == 0x22_0000 + function * 4 + method
                &&& code >> 16u32 == 0x22
                &&& (code >> 14u32) & 3 == 0
                &&& (code >> 2u32) & 0xfff == function
                &&& code & 3 == method
            }) by (bit_vector)
                requires
                    code == (0x22u32 << 16u32) | (function << 2u32) | method,
                    function < 0x1000,
                    method < 4,
            ;
        }
    }
    code
}

pub const IOCTL_SET_INTERFACE: u32 = 0x0022_200C;

pub const IOCTL_INTERRUPT_OR_BULK_WRITE: u32 = 0x0022_2029;

pub const IOCTL_INTERRUPT_OR_BULK_READ: u32 = 0x0022_202E;

pub const IOCTL_RESET_ENDPOINT: u32 = 0x0022_2038;

pub const IOCTL_CLAIM_INTERFACE: u32 = 0x0022_2054;

pub const IOCTL_RELEASE_INTERFACE: u32 = 0x0022_2058;

pub const IOCTL_SET_PIPE_POLICY: u32 = 0x0022_2418;

pub const IOCTL_CONTROL_WRITE: u32 = 0x0022_2429;

pub const IOCTL_CONTROL_READ: u32 = 0x0022_242E;

/// Each control code that the library sends is the `CTL_CODE` of its
/// libusb0 function number and buffering method.
pub proof fn lemma_ioctl_codes()
    ensures
        IOCTL_SET_INTERFACE == spec_ctl_code(0x803, METHOD_BUFFERED),
        IOCTL_INTERRUPT_OR_BULK_WRITE == spec_ctl_code(0x80A, METHOD_IN_DIRECT),
        IOCTL_INTERRUPT_OR_BULK_READ == spec_ctl_code(0x80B, METHOD_OUT_DIRECT),
        IOCTL_RESET_ENDPOINT == spec_ctl_code(0x80E, METHOD_BUFFERED),
        IOCTL_CLAIM_INTERFACE == spec_ctl_code(0x815, METHOD_BUFFERED),
        IOCTL_RELEASE_INTERFACE == spec_ctl_code(0x816, METHOD_BUFFERED),
        IOCTL_SET_PIPE_POLICY == spec_ctl_code(0x906, METHOD_BUFFERED),
        IOCTL_CONTROL_WRITE == spec_ctl_code(0x90A, METHOD_IN_DIRECT),
        IOCTL_CONTROL_READ == spec_ctl_code(0x90B, METHOD_OUT_DIRECT),
{
    assert(0x0022_200Cu32 == (0x22u32 << 16u32) | (0x803u32 << 2u32) | 0u32) by (bit_vector);
    assert(0x0022_2029u32 == (0x22u32 << 16u32) | (0x80Au32 << 2u32) | 1u32) by (bit_vector);
    assert(0x0022_202Eu32 == (0x22u32 << 16u32) | (0x80Bu32 << 2u32) | 2u32) by (bit_vector);
    assert(0x0022_2038u32 == (0x22u32 << 16u32) | (0x80Eu32 << 2u32) | 0u32) by (bit_vector);
    assert(0x0022_2054u32 == (0x22u32 << 16u32) | (0x815u32 << 2u32) | 0u32) by (bit_vector);
    assert(0x0022_2058u32 == (0x22u32 << 16u32) | (0x816u32 << 2u32) | 0u32) by (bit_vector);
    assert(0x0022_2418u32 == (0x22u32 << 16u32) | (0x906u32 << 2u32) | 0u32) by (bit_vector);
    assert(0x0022_2429u32 == (0x22u32 << 16u32) | (0x90Au32 << 2u32) | 1u32) by (bit_vector);
    assert(0x0022_242Eu32 == (0x22u32 << 16u32) | (0x90Bu32 << 2u32) | 2u32) by (bit_vector);
}

/// The timeout that libusb0 requests carry, in milliseconds.
pub const DEFAULT_TIMEOUT_MS: u32 = 5000;

/// The libusb0 pipe policy that sets a pipe's transfer timeout.
pub const PIPE_TRANSFER_TIMEOUT: u32 = 0x03;

/// The USB setup packet of a control transfer, as plain values.
#[derive(Clone, Copy, Debug, PartialEq, Eq, Structural)]
pub struct SetupPacket {
    pub request_type: u8,
    pub request: u8,
    pub value: u16,
    pub index: u16,
    pub length: u16,
}

/// `libusb_request`: a timeout and five argument words, laid out as six
/// `u32`s (24 bytes) in the input buffer of an IOCTL.
#[derive(Clone, Copy)]
pub struct Request {
    pub timeout: u32,
    pub args: [u32; 5],
}

/// `r` holds `timeout` and the argument words `args`.
pub open spec fn request_is(r: Request, timeout: u32, args: Seq<u32>) -> bool {
    r.timeout == timeout && r.args@ == args
}

/// The little-endian bytes of a `u32`.
pub open spec fn le32(x: u32) -> Seq<u8> {
    seq![x as u8, (x >> 8u32) as u8, (x >> 16u32) as u8, (x >> 24u32) as u8]
}

/// The bytes of a request as the driver reads them: the timeout, then the
/// five argument words, each little-endian.
pub open spec fn request_bytes(r: Request) -> Seq<u8> {
    le32(r.timeout) + le32(r.args@[0]) + le32(r.args@[1]) + le32(r.args@[2]) + le32(
        r.args@[3],
    ) + le32(r.args@[4])
}

/// The eight bytes of a setup packet as USB puts it on the wire:
/// `bmRequestType`, `bRequest`, then `wValue`, `wIndex`, `wLength` little-endian.
pub open spec fn setup_packet_bytes(pkt: SetupPacket) -> Seq<u8> {
    seq![
        pkt.request_type,
        pkt.request,
        pkt.value as u8,
        (pkt.value >> 8u16) as u8,
        pkt.index as u8,
        (pkt.index >> 8u16) as u8,
        pkt.length as u8,
        (pkt.length >> 8u16) as u8,
    ]
}

/// The argument words of a control request: the first four bytes of the
/// setup packet in the first word, `wIndex` and `wLength` in the second.
pub open spec fn control_args(pkt: SetupPacket) -> Seq<u32> {
    seq![
        (pkt.request_type + pkt.request * 0x100 + pkt.value * 0x1_0000) as u32,
        (pkt.index + pkt.length * 0x1_0000) as u32,
        0u32,
        0u32,
        0u32,
    ]
}

/// Appends the little-endian bytes of `x`.
fn push_le32(out: &mut Vec<u8>, x: u32)
    ensures
        final(out)@ == old(out)@ + le32(x),
{
    out.push(x as u8);
    out.push((x >> 8u32) as u8);
    out.push((x >> 16u32) as u8);
    out.push((x >> 24u32) as u8);
    assert(final(out)@ =~= old(out)@ + le32(x));
}

/// The little-endian `u32` that the four bytes of `b` from `off` on hold.
pub open spec fn u32_at(b: Seq<u8>, off: int) -> int {
    b[off] + b[off + 1] * 0x100 + b[off + 2] * 0x1_0000 + b[off + 3] * 0x100_0000
}

/// The four bytes of `le32(x)`, read back as a little-endian word, give `x`.
pub proof fn lemma_le32_reads_back(x: u32)
    ensures
        le32(x).len() == 4,
        u32_at(le32(x), 0) == x,
{
    let b0: u8 = x as u8;
    let b1: u8 = (x >> 8u32) as u8;
    let b2: u8 = (x >> 16u32) as u8;
    let b3: u8 = (x >> 24u32) as u8;
    assert(b0 + b1 * 0x100 + b2 * 0x1_0000 + b3 * 0x100_0000 == x) by (bit_vector)
        requires
            b0 == x as u8,
            b1 == (x >> 8u32) as u8,
            b2 == (x >> 16u32) as u8,
            b3 == (x >> 24u32) as u8,
    ;
}

/// Read back word by word, the bytes of a request give its timeout (bytes 0
/// to 4) and then each of its five argument words (bytes `4 + 4k` to `8 + 4k`).
pub proof fn lemma_request_bytes_words(r: Request)
    ensures
        request_bytes(r).len() == 24,
        u32_at(request_bytes(r), 0) == r.timeout,
        forall|k: int| 0 <= k < 5 ==> u32_at(request_bytes(r), 4 + 4 * k) == #[trigger] r.args@[k],
{
    let b = request_bytes(r);
    lemma_le32_reads_back(r.timeout);
    lemma_le32_reads_back(r.args@[0]);
    lemma_le32_reads_back(r.args@[1]);
    lemma_le32_reads_back(r.args@[2]);
    lemma_le32_reads_back(r.args@[3]);
    lemma_le32_reads_back(r.args@[4]);
    assert(b.subrange(0, 4) =~= le32(r.timeout));
    assert(b.subrange(4, 8) =~= le32(r.args@[0]));
    assert(b.subrange(8, 12) =~= le32(r.args@[1]));
    assert(b.subrange(12, 16) =~= le32(r.args@[2]));
    assert(b.subrange(16, 20) =~= le32(r.args@[3]));
    assert(b.subrange(20, 24) =~= le32(r.args@[4]));
    assert(u32_at(b, 0) == u32_at(b.subrange(0, 4), 0));
    assert(u32_at(b, 4) == u32_at(b.subrange(4, 8), 0));
    assert(u32_at(b, 8) == u32_at(b.subrange(8, 12), 0));
    assert(u32_at(b, 12) == u32_at(b.subrange(12, 16), 0));
    assert(u32_at(b, 16) == u32_at(b.subrange(16, 20), 0));
    assert(u32_at(b, 20) == u32_at(b.subrange(20, 24), 0));
    assert forall|k: int| 0 <= k < 5 implies u32_at(b, 4 + 4 * k) == #[trigger] r.args@[k] by {
        if k == 0 {
        } else if k == 1 {
        } else if k == 2 {
        } else if k == 3 {
        } else {
        }
    }
}

impl Request {
    /// The request naming an interface, with no timeout.
    pub fn interface(interface: u8) -> (r: Request)
        ensures
            request_is(r, 0, seq![interface as u32, 0u32, 0u32, 0u32, 0u32]),
            r.timeout == 0,
            r.args@ == seq![interface as u32, 0u32, 0u32, 0u32, 0u32],
    {
        let r = Request { timeout: 0, args: [interface as u32, 0, 0, 0, 0] };
        assert(r.args@ =~= seq![interface as u32, 0u32, 0u32, 0u32, 0u32]);
        r
    }

    /// The request selecting an alternate setting of an interface.
    pub fn alt_setting(interface: u8, alt_setting: u8) -> (r: Request)
        ensures
            request_is(
                r,
                DEFAULT_TIMEOUT_MS,
                seq![interface as u32, alt_setting as u32, 0u32, 0u32, 0u32],
            ),
            r.timeout == 5000,
            r.args@ == seq![interface as u32, alt_setting as u32, 0u32, 0u32, 0u32],
    {
        let r = Request {
            timeout: DEFAULT_TIMEOUT_MS,
            args: [interface as u32, alt_setting as u32, 0, 0, 0],
        };
        assert(r.args@ =~= seq![interface as u32, alt_setting as u32, 0u32, 0u32, 0u32]);
        r
    }

    /// The request naming an endpoint.
    pub fn endpoint(endpoint: u8) -> (r: Request)
        ensures
            request_is(r, DEFAULT_TIMEOUT_MS, seq![endpoint as u32, 0u32, 0u32, 0u32, 0u32]),
            r.timeout == 5000,
            r.args@ == seq![endpoint as u32, 0u32, 0u32, 0u32, 0u32],
    {
        let r = Request { timeout: DEFAULT_TIMEOUT_MS, args: [endpoint as u32, 0, 0, 0, 0] };
        assert(r.args@ =~= seq![endpoint as u32, 0u32, 0u32, 0u32, 0u32]);
        r
    }

    /// The request of a control transfer: the setup packet in the first two
    /// argument words, with no timeout (the pipe policy carries it).
    pub fn control(pkt: SetupPacket) -> (r: Request)
        ensures
            request_is(r, 0, control_args(pkt)),
            r.timeout == 0,
            r.args@.len() == 5,
            r.args@[0] as int == pkt.request_type + pkt.request * 0x100 + pkt.value * 0x1_0000,
            r.args@[1] as int == pkt.index + pkt.length * 0x1_0000,
            r.args@[2] == 0 && r.args@[3] == 0 && r.args@[4] == 0,
    {
        let value_lo: u8 = pkt.value as u8;
        let value_hi: u8 = (pkt.value >> 8u16) as u8;
        let rt: u8 = pkt.request_type;
        let rq: u8 = pkt.request;
        let v: u16 = pkt.value;
        let i: u16 = pkt.index;
        let l: u16 = pkt.length;
        let a0: u32 = (rt as u32) | ((rq as u32) << 8u32) | ((value_lo as u32) << 16u32) | ((
        value_hi as u32) << 24u32);
        let a1: u32 = (i as u32) | ((l as u32) << 16u32);
        assert(a0 as int == rt + rq * 0x100 + v * 0x1_0000) by (bit_vector)
            requires
                value_lo == v as u8,
                value_hi == (v >> 8u16) as u8,
                a0 == (rt as u32) | ((rq as u32) << 8u32) | ((value_lo as u32) << 16u32) | ((
                value_hi as u32) << 24u32),
        ;
        assert(a1 as int == i + l * 0x1_0000) by (bit_vector)
            requires
                a1 == (i as u32) | ((l as u32) << 16u32),
        ;
        let r = Request { timeout: 0, args: [a0, a1, 0, 0, 0] };
        assert(r.args@ =~= control_args(pkt));
        r
    }

    /// The 24 bytes of the request, as the driver reads them from the input
    /// buffer.
    pub fn to_bytes(&self) -> (bytes: Vec<u8>)
        ensures
            bytes@ == request_bytes(*self),
            bytes@.len() == 24,
            u32_at(bytes@, 0) == self.timeout,
            forall|k: int| 0 <= k < 5 ==> u32_at(bytes@, 4 + 4 * k) == #[trigger] self.args@[k],
    {
        let mut out: Vec<u8> = Vec::new();
        push_le32(&mut out, self.timeout);
        push_le32(&mut out, self.args[0]);
        push_le32(&mut out, self.args[1]);
        push_le32(&mut out, self.args[2]);
        push_le32(&mut out, self.args[3]);
        push_le32(&mut out, self.args[4]);
        assert(out@ =~= request_bytes(*self));
        proof {
            lemma_request_bytes_words(*self);
        }
        out
    }
}

/// The bytes of a control request hold the setup packet, as USB puts it on
/// the wire, right after the timeout word.
pub proof fn lemma_control_request_carries_setup_packet(pkt: SetupPacket, r: Request)
    requires
        request_is(r, 0, control_args(pkt)),
    ensures
        request_bytes(r).subrange(4, 12) == setup_packet_bytes(pkt),
        request_bytes(r).subrange(0, 4) == seq![0u8, 0u8, 0u8, 0u8],
{
    let rt = pkt.request_type;
    let rq = pkt.request;
    let v = pkt.value;
    let i = pkt.index;
    let l = pkt.length;
    let a0 = r.args@[0];
    let a1 = r.args@[1];
    assert(a0 as int == rt + rq * 0x100 + v * 0x1_0000);
    assert(a1 as int == i + l * 0x1_0000);
    assert(le32(a0) =~= seq![rt, rq, v as u8, (v >> 8u16) as u8]) by {
        assert(a0 as u8 == rt && (a0 >> 8u32) as u8 == rq && (a0 >> 16u32) as u8 == v as u8
            && (a0 >> 24u32) as u8 == (v >> 8u16) as u8) by (bit_vector)
            requires
                a0 as int == rt + rq * 0x100 + v * 0x1_0000,
        ;
    }
    assert(le32(a1) =~= seq![i as u8, (i >> 8u16) as u8, l as u8, (l >> 8u16) as u8]) by {
        assert(a1 as u8 == i as u8 && (a1 >> 8u32) as u8 == (i >> 8u16) as u8 && (a1
            >> 16u32) as u8 == l as u8 && (a1 >> 24u32) as u8 == (l >> 8u16) as u8)
            by (bit_vector)
            requires
                a1 as int == i + l * 0x1_0000,
        ;
    }
    assert(le32(0u32) =~= seq![0u8, 0u8, 0u8, 0u8]) by {
        assert((0u32 as u8) == 0u8 && ((0u32 >> 8u32) as u8) == 0u8 && ((0u32 >> 16u32) as u8)
            == 0u8 && ((0u32 >> 24u32) as u8) == 0u8) by (bit_vector);
    }
    assert(request_bytes(r).subrange(4, 12) =~= setup_packet_bytes(pkt));
    assert(request_bytes(r).subrange(0, 4) =~= seq![0u8, 0u8, 0u8, 0u8]);
}

/// The `libusb_request` of a pipe policy, followed by the policy's value:
/// 28 bytes in the input buffer of `IOCTL_SET_PIPE_POLICY`.
#[derive(Clone, Copy)]
pub struct PipePolicy {
    pub request: Request,
    pub value: u32,
}

/// The bytes of a pipe policy as the driver reads them.
pub open spec fn pipe_policy_bytes(p: PipePolicy) -> Seq<u8> {
    request_bytes(p.request) + le32(p.value)
}

/// Read back word by word, the bytes of a pipe policy give the words of its
/// request at the request's offsets, and the policy's value at bytes 24 to 28.
pub proof fn lemma_pipe_policy_bytes_words(p: PipePolicy)
    ensures
        pipe_policy_bytes(p).len() == 28,
        pipe_policy_bytes(p).subrange(0, 24) == request_bytes(p.request),
        u32_at(pipe_policy_bytes(p), 0) == p.request.timeout,
        forall|k: int|
            0 <= k < 5 ==> u32_at(pipe_policy_bytes(p), 4 + 4 * k) == #[trigger] p.request.args@[k],
        u32_at(pipe_policy_bytes(p), 24) == p.value,
{
    let b = pipe_policy_bytes(p);
    let rb = request_bytes(p.request);
    lemma_request_bytes_words(p.request);
    lemma_le32_reads_back(p.value);
    assert(b.subrange(0, 24) =~= rb);
    assert(b.subrange(24, 28) =~= le32(p.value));
    assert(u32_at(b, 24) == u32_at(b.subrange(24, 28), 0));
    assert(u32_at(b, 0) == u32_at(rb, 0));
    assert forall|k: int| 0 <= k < 5 implies u32_at(b, 4 + 4 * k) == #[trigger] p.request.args@[k] by {
        assert(u32_at(b, 4 + 4 * k) == u32_at(rb, 4 + 4 * k));
    }
}

impl PipePolicy {
    /// The 28 bytes of the pipe policy.
    pub fn to_bytes(&self) -> (bytes: Vec<u8>)
        ensures
            bytes@ == pipe_policy_bytes(*self),
            bytes@.len() == 28,
            u32_at(bytes@, 0) == self.request.timeout,
            forall|k: int|
                0 <= k < 5 ==> u32_at(bytes@, 4 + 4 * k) == #[trigger] self.request.args@[k],
            u32_at(bytes@, 24) == self.value,
    {
        let mut out = self.request.to_bytes();
        push_le32(&mut out, self.value);
        proof {
            lemma_pipe_policy_bytes_words(*self);
        }
        out
    }
}

/// An IOCTL to send to libusb0.sys: its control code and its request.
#[derive(Clone, Copy)]
pub struct Ioctl {
    pub code: u32,
    pub request: Request,
}

/// Claims an interface for this handle.
pub fn claim_interface(interface: u8) -> (io: Ioctl)
    ensures
        io.code == IOCTL_CLAIM_INTERFACE,
        request_is(io.request, 0, seq![interface as u32, 0u32, 0u32, 0u32, 0u32]),
        io.request.timeout == 0,
        io.request.args@ == seq![interface as u32, 0u32, 0u32, 0u32, 0u32],
{
    Ioctl { code: IOCTL_CLAIM_INTERFACE, request: Request::interface(interface) }
}

/// Releases a claimed interface.
pub fn release_interface(interface: u8) -> (io: Ioctl)
    ensures
        io.code == IOCTL_RELEASE_INTERFACE,
        request_is(io.request, 0, seq![interface as u32, 0u32, 0u32, 0u32, 0u32]),
        io.request.timeout == 0,
        io.request.args@ == seq![interface as u32, 0u32, 0u32, 0u32, 0u32],
{
    Ioctl { code: IOCTL_RELEASE_INTERFACE, request: Request::interface(interface) }
}

/// Selects an alternate setting of an interface.
pub fn set_alt_setting(interface: u8, alt_setting: u8) -> (io: Ioctl)
    ensures
        io.code == IOCTL_SET_INTERFACE,
        request_is(
            io.request,
            DEFAULT_TIMEOUT_MS,
            seq![interface as u32, alt_setting as u32, 0u32, 0u32, 0u32],
        ),
        io.request.timeout == 5000,
        io.request.args@ == seq![interface as u32, alt_setting as u32, 0u32, 0u32, 0u32],
{
    Ioctl { code: IOCTL_SET_INTERFACE, request: Request::alt_setting(interface, alt_setting) }
}

/// Clears the halt condition of an endpoint.
pub fn reset_endpoint(endpoint: u8) -> (io: Ioctl)
    ensures
        io.code == IOCTL_RESET_ENDPOINT,
        request_is(io.request, DEFAULT_TIMEOUT_MS, seq![endpoint as u32, 0u32, 0u32, 0u32, 0u32]),
        io.request.timeout == 5000,
        io.request.args@ == seq![endpoint as u32, 0u32, 0u32, 0u32, 0u32],
{
    Ioctl { code: IOCTL_RESET_ENDPOINT, request: Request::endpoint(endpoint) }
}

/// Starts a bulk or interrupt transfer on an endpoint: a write for an OUT
/// endpoint, a read for an IN endpoint. The data goes in the output buffer
/// of the IOCTL in both directions.
pub fn submit(endpoint: u8) -> (io: Ioctl)
    ensures
        io.code == (match direction_of(endpoint) {
            Direction::Out => IOCTL_INTERRUPT_OR_BULK_WRITE,
            Direction::In => IOCTL_INTERRUPT_OR_BULK_READ,
        }),
        request_is(io.request, DEFAULT_TIMEOUT_MS, seq![endpoint as u32, 0u32, 0u32, 0u32, 0u32]),
        (io.code == IOCTL_INTERRUPT_OR_BULK_READ) <==> (endpoint & 0x80u8 != 0),
        (io.code == IOCTL_INTERRUPT_OR_BULK_WRITE) <==> (endpoint & 0x80u8 == 0),
        io.request.timeout == 5000,
        io.request.args@ == seq![endpoint as u32, 0u32, 0u32, 0u32, 0u32],
{
    proof {
        lemma_direction_is_bit_seven(endpoint);
    }
    let code = match Direction::from_address(endpoint) {
        Direction::Out => IOCTL_INTERRUPT_OR_BULK_WRITE,
        Direction::In => IOCTL_INTERRUPT_OR_BULK_READ,
    };
    Ioctl { code, request: Request::endpoint(endpoint) }
}

/// The transfer timeout given to the driver for a requested timeout in
/// milliseconds: at least 1 (0 would mean no timeout at all), and
/// `u32::MAX` for anything longer.
pub open spec fn spec_pipe_timeout_ms(timeout_ms: u128) -> u32 {
    if timeout_ms > u32::MAX {
        u32::MAX
    } else if timeout_ms == 0 {
        1
    } else {
        timeout_ms as u32
    }
}

/// A requested timeout is kept as it is where it fits in a `u32` and is not 0;
/// 0 becomes 1 ms, and anything longer than `u32::MAX` ms becomes `u32::MAX`.
pub proof fn lemma_pipe_timeout_ms(timeout_ms: u128)
    ensures
        timeout_ms == 0 ==> spec_pipe_timeout_ms(timeout_ms) == 1,
        1 <= timeout_ms <= 0xffff_ffff ==> spec_pipe_timeout_ms(timeout_ms) == timeout_ms,
        timeout_ms > 0xffff_ffff ==> spec_pipe_timeout_ms(timeout_ms) == 0xffff_ffffu32,
{
}

/// The transfer timeout, in milliseconds, that the control pipe is set to.
pub fn pipe_timeout_ms(timeout_ms: u128) -> (ms: u32)
    ensures
        ms == spec_pipe_timeout_ms(timeout_ms),
        1 <= ms,
        timeout_ms == 0 ==> ms == 1,
        1 <= timeout_ms <= 0xffff_ffff ==> ms == timeout_ms,
        timeout_ms > 0xffff_ffff ==> ms == 0xffff_ffffu32,
{
    proof {
        lemma_pipe_timeout_ms(timeout_ms);
    }
    let ms: u32 = if timeout_ms > u32::MAX as u128 {
        u32::MAX
    } else {
        timeout_ms as u32
    };
    if ms < 1 {
        1
    } else {
        ms
    }
}

/// The two IOCTLs of a control transfer: first the pipe policy that sets the
/// default pipe's timeout, sent with the control code `policy_code`, then the
/// transfer itself.
#[derive(Clone, Copy)]
pub struct ControlTransferPlan {
    pub policy_code: u32,
    pub policy: PipePolicy,
    pub transfer: Ioctl,
}

/// The default pipe, whose transfer timeout the driver keeps per device: the
/// lock serializes the pair of IOCTLs of each control transfer.
#[derive(Default)]
pub struct ControlPipe(pub std::sync::Mutex<()>);

#[verifier::external_type_specification]
#[verifier::external_body]
#[verifier::reject_recursive_types(T)]
pub struct ExMutex<T: ?Sized>(std::sync::Mutex<T>);

/// The default pipe in the direction of a control transfer: 0x80 to read,
/// 0x00 to write.
pub open spec fn control_pipe_id(pkt: SetupPacket) -> u32 {
    match direction_of(pkt.request_type) {
        Direction::In => 0x80u32,
        Direction::Out => 0x00u32,
    }
}

/// The argument words of the pipe policy that sets the transfer timeout of
/// the pipe `pipe_id`.
pub open spec fn timeout_policy_args(pipe_id: u32) -> Seq<u32> {
    seq![0u32, pipe_id, PIPE_TRANSFER_TIMEOUT, 0u32, 0u32]
}

/// The timeout policy goes to pipe 0x80 exactly when bit 7 of
/// `bmRequestType` is set (a device-to-host transfer), and to pipe 0x00
/// otherwise.
pub proof fn lemma_control_pipe_follows_direction(pkt: SetupPacket)
    ensures
        control_pipe_id(pkt) == (if pkt.request_type & 0x80u8 != 0 {
            0x80u32
        } else {
            0x00u32
        }),
        timeout_policy_args(control_pipe_id(pkt))[1] == control_pipe_id(pkt),
        timeout_policy_args(control_pipe_id(pkt))[2] == 3,
{
    lemma_direction_is_bit_seven(pkt.request_type);
}

impl ControlPipe {
    /// The IOCTLs of a control transfer with the setup packet `pkt` and a
    /// timeout of `timeout_ms` milliseconds. The direction bit of
    /// `bmRequestType` picks the pipe (0x80 or 0x00) and the read or write
    /// control code.
    pub fn transfer_plan(pkt: SetupPacket, timeout_ms: u128) -> (plan: ControlTransferPlan)
        ensures
            plan.policy_code == IOCTL_SET_PIPE_POLICY,
            request_is(plan.policy.request, 0, timeout_policy_args(control_pipe_id(pkt))),
            plan.policy.value == spec_pipe_timeout_ms(timeout_ms),
            plan.transfer.code == (match direction_of(pkt.request_type) {
                Direction::In => IOCTL_CONTROL_READ,
                Direction::Out => IOCTL_CONTROL_WRITE,
            }),
            request_is(plan.transfer.request, 0, control_args(pkt)),
            plan.policy.request.timeout == 0,
            plan.policy.request.args@.len() == 5,
            plan.policy.request.args@[0] == 0,
            plan.policy.request.args@[1] == (if pkt.request_type & 0x80u8 != 0 {
                0x80u32
            } else {
                0x00u32
            }),
            plan.policy.request.args@[2] == 3,
            plan.policy.request.args@[3] == 0 && plan.policy.request.args@[4] == 0,
            (plan.transfer.code == IOCTL_CONTROL_READ) <==> (pkt.request_type & 0x80u8 != 0),
            (plan.transfer.code == IOCTL_CONTROL_WRITE) <==> (pkt.request_type & 0x80u8 == 0),
            (plan.policy.request.args@[1] == 0x80) <==> (plan.transfer.code == IOCTL_CONTROL_READ),
            timeout_ms == 0 ==> plan.policy.value == 1,
            1 <= timeout_ms <= 0xffff_ffff ==> plan.policy.value == timeout_ms,
            timeout_ms > 0xffff_ffff ==> plan.policy.value == 0xffff_ffffu32,
            plan.transfer.request.timeout == 0,
            plan.transfer.request.args@[0] as int == pkt.request_type + pkt.request * 0x100
                + pkt.value * 0x1_0000,
            plan.transfer.request.args@[1] as int == pkt.index + pkt.length * 0x1_0000,
    {
        proof {
            lemma_direction_is_bit_seven(pkt.request_type);
            lemma_control_pipe_follows_direction(pkt);
        }
        let dir = Direction::from_address(pkt.request_type);
        let (pipe_id, code): (u32, u32) = match dir {
            Direction::In => (0x80, IOCTL_CONTROL_READ),
            Direction::Out => (0x00, IOCTL_CONTROL_WRITE),
        };
        assert(pipe_id == control_pipe_id(pkt));
        let ms = pipe_timeout_ms(timeout_ms);
        let request = Request { timeout: 0, args: [0, pipe_id, PIPE_TRANSFER_TIMEOUT, 0, 0] };
        assert(request.args@ =~= timeout_policy_args(pipe_id));
        let policy = PipePolicy { request, value: ms };
        ControlTransferPlan { policy_code: IOCTL_SET_PIPE_POLICY, policy, transfer: Ioctl { code, request: Request::control(pkt) } }
    }
}

/// Whether an IOCTL was accepted: it completed at once, or it is pending.
/// `ret` is what `DeviceIoControl` returned and `last_error` what
/// `GetLastError` said right after it.
pub fn ioctl_submitted(ret: windows_sys::core::BOOL, last_error: WIN32_ERROR) -> (submitted: bool)
    ensures
        submitted == (ret != FALSE || last_error == ERROR_IO_PENDING),
{
    ret != FALSE || last_error == ERROR_IO_PENDING
}

/// What an IOCTL is answered: the number of bytes transferred, or the error.
/// `completed` is what `GetOverlappedResult` returned (it is only asked when
/// the IOCTL was submitted), `status` the `Internal` status word of the
/// `OVERLAPPED`, `transferred` the byte count it gave, and `last_error` what
/// `GetLastError` said after the failed call. A request that the driver
/// completed with `STATUS_TIMEOUT`, a success code, is answered
/// `ERROR_SEM_TIMEOUT`.
pub fn ioctl_outcome(
    submitted: bool,
    completed: windows_sys::core::BOOL,
    status: usize,
    transferred: u32,
    last_error: WIN32_ERROR,
) -> (r: Result<u32, WIN32_ERROR>)
    ensures
        submitted && completed != FALSE && status != 0x102 ==> r == Ok::<u32, WIN32_ERROR>(
            transferred,
        ),
        submitted && completed != FALSE && status == 0x102 ==> r == Err::<u32, WIN32_ERROR>(
            ERROR_SEM_TIMEOUT,
        ),
        !(submitted && completed != FALSE) ==> r == Err::<u32, WIN32_ERROR>(last_error),
{
    if submitted && completed != FALSE {
        if status == STATUS_TIMEOUT as usize {
            Err(ERROR_SEM_TIMEOUT)
        } else {
            Ok(transferred)
        }
    } else {
        Err(last_error)
    }
}

} // verus!
