//! The kernel drivers that the Windows back end speaks to, and how a driver
//! is told from the service name that the system reports for a device.
use vstd::prelude::*;
use vstd::string::StringSliceAdditionalSpecFns;

verus! {

/// A driver that the library can use for a device.
#[derive(Clone, Copy, Debug, PartialEq, Eq, Structural)]
pub enum Driver {
    WinUsb,
    Libusb0,
}

/// An ASCII byte in lower case; every other byte unchanged.
pub open spec fn ascii_lower(b: u8) -> u8 {
    if 0x41 <= b <= 0x5a {
        (b + 0x20) as u8
    } else {
        b
    }
}

/// Two byte strings are equal once ASCII letters are put in lower case.
pub open spec fn eq_ignore_ascii_case(a: Seq<u8>, b: Seq<u8>) -> bool {
    &&& a.len() == b.len()
    &&& forall|i: int| 0 <= i < a.len() ==> ascii_lower(#[trigger] a[i]) == ascii_lower(b[i])
}

/// "winusb"
pub open spec fn winusb_name() -> Seq<u8> {
    seq![0x77u8, 0x69u8, 0x6eu8, 0x75u8, 0x73u8, 0x62u8]
}

/// "libusb0"
pub open spec fn libusb0_name() -> Seq<u8> {
    seq![0x6cu8, 0x69u8, 0x62u8, 0x75u8, 0x73u8, 0x62u8, 0x30u8]
}

/// The driver named by the bytes of a service name, matched without regard
/// to ASCII case.
pub open spec fn driver_for_name(name: Seq<u8>) -> Option<Driver> {
    if eq_ignore_ascii_case(name, winusb_name()) {
        Some(Driver::WinUsb)
    } else if eq_ignore_ascii_case(name, libusb0_name()) {
        Some(Driver::Libusb0)
    } else {
        None
    }
}

/// Each byte of `name` is the byte of `lower` or the byte of `upper` at the
/// same place.
pub open spec fn matches_either_case(name: Seq<u8>, lower: Seq<u8>, upper: Seq<u8>) -> bool {
    &&& name.len() == lower.len()
    &&& forall|i: int| 0 <= i < name.len() ==> #[trigger] name[i] == lower[i] || name[i] == upper[i]
}

/// Where `upper` is `lower` with its ASCII letters (all lower case) put in
/// upper case, matching `lower` without regard to ASCII case is having at
/// each place the byte of one or the other.
proof fn lemma_case_insensitive_is_either_case(name: Seq<u8>, lower: Seq<u8>, upper: Seq<u8>)
    requires
        lower.len() == upper.len(),
        forall|i: int|
            0 <= i < lower.len() ==> ((0x61 <= #[trigger] lower[i] <= 0x7a && upper[i] == lower[i]
                - 0x20) || (!(0x41 <= lower[i] <= 0x5a) && !(0x61 <= lower[i] <= 0x7a)
                && upper[i] == lower[i])),
    ensures
        eq_ignore_ascii_case(name, lower) <==> matches_either_case(name, lower, upper),
{
    if eq_ignore_ascii_case(name, lower) {
        assert forall|i: int| 0 <= i < name.len() implies #[trigger] name[i] == lower[i] || name[i]
            == upper[i] by {
            assert(ascii_lower(name[i]) == ascii_lower(lower[i]));
        }
    }
    if matches_either_case(name, lower, upper) {
        assert forall|i: int| 0 <= i < name.len() implies ascii_lower(#[trigger] name[i])
            == ascii_lower(lower[i]) by {
            assert(name[i] == lower[i] || name[i] == upper[i]);
        }
    }
}

/// A service name selects WinUSB exactly when it is six bytes, each the
/// letter of "winusb" in either case; libusb0 exactly when it is seven
/// bytes, each the letter of "libusb0" in either case (the "0" as it is).
pub proof fn lemma_driver_names_by_letters(name: Seq<u8>)
    ensures
        (driver_for_name(name) == Some(Driver::WinUsb)) <==> matches_either_case(
            name,
            seq![0x77u8, 0x69u8, 0x6eu8, 0x75u8, 0x73u8, 0x62u8],
            seq![0x57u8, 0x49u8, 0x4eu8, 0x55u8, 0x53u8, 0x42u8],
        ),
        (driver_for_name(name) == Some(Driver::Libusb0)) <==> matches_either_case(
            name,
            seq![0x6cu8, 0x69u8, 0x62u8, 0x75u8, 0x73u8, 0x62u8, 0x30u8],
            seq![0x4cu8, 0x49u8, 0x42u8, 0x55u8, 0x53u8, 0x42u8, 0x30u8],
        ),
        (driver_for_name(name) == None::<Driver>) <==> (name.len() != 6 && name.len() != 7)
            || (name.len() == 6 && !matches_either_case(
            name,
            seq![0x77u8, 0x69u8, 0x6eu8, 0x75u8, 0x73u8, 0x62u8],
            seq![0x57u8, 0x49u8, 0x4eu8, 0x55u8, 0x53u8, 0x42u8],
        )) || (name.len() == 7 && !matches_either_case(
            name,
            seq![0x6cu8, 0x69u8, 0x62u8, 0x75u8, 0x73u8, 0x62u8, 0x30u8],
            seq![0x4cu8, 0x49u8, 0x42u8, 0x55u8, 0x53u8, 0x42u8, 0x30u8],
        )),
{
    let wl = seq![0x77u8, 0x69u8, 0x6eu8, 0x75u8, 0x73u8, 0x62u8];
    let wu = seq![0x57u8, 0x49u8, 0x4eu8, 0x55u8, 0x53u8, 0x42u8];
    let ll = seq![0x6cu8, 0x69u8, 0x62u8, 0x75u8, 0x73u8, 0x62u8, 0x30u8];
    let lu = seq![0x4cu8, 0x49u8, 0x42u8, 0x55u8, 0x53u8, 0x42u8, 0x30u8];
    assert(wl =~= winusb_name());
    assert(ll =~= libusb0_name());
    assert forall|i: int|
        0 <= i < wl.len() implies ((0x61 <= #[trigger] wl[i] <= 0x7a && wu[i] == wl[i] - 0x20) || (
    !(0x41 <= wl[i] <= 0x5a) && !(0x61 <= wl[i] <= 0x7a) && wu[i] == wl[i])) by {
        if i == 0 {
        } else if i == 1 {
        } else if i == 2 {
        } else if i == 3 {
        } else if i == 4 {
        } else {
        }
    }
    assert forall|i: int|
        0 <= i < ll.len() implies ((0x61 <= #[trigger] ll[i] <= 0x7a && lu[i] == ll[i] - 0x20) || (
    !(0x41 <= ll[i] <= 0x5a) && !(0x61 <= ll[i] <= 0x7a) && lu[i] == ll[i])) by {
        if i == 0 {
        } else if i == 1 {
        } else if i == 2 {
        } else if i == 3 {
        } else if i == 4 {
        } else if i == 5 {
        } else {
        }
    }
    lemma_case_insensitive_is_either_case(name, wl, wu);
    lemma_case_insensitive_is_either_case(name, ll, lu);
}

fn to_ascii_lower(b: u8) -> (r: u8)
    ensures
        r == ascii_lower(b),
{
    if 0x41 <= b && b <= 0x5a {
        b + 0x20
    } else {
        b
    }
}

/// Compares two byte strings without regard to ASCII case.
fn bytes_eq_ignore_ascii_case(a: &[u8], b: &[u8]) -> (r: bool)
    ensures
        r == eq_ignore_ascii_case(a@, b@),
{
    if a.len() != b.len() {
        return false;
    }
    let mut i: usize = 0;
    while i < a.len()
        invariant
            a@.len() == b@.len(),
            i <= a@.len(),
            forall|j: int| 0 <= j < i ==> ascii_lower(#[trigger] a@[j]) == ascii_lower(b@[j]),
        decreases a@.len() - i,
    {
        if to_ascii_lower(a[i]) != to_ascii_lower(b[i]) {
            return false;
        }
        i = i + 1;
    }
    true
}

impl Driver {
    /// The driver of a device whose service name is `name`: "WinUSB" or
    /// "libusb0", in any ASCII case; `None` for any other service.
    pub fn from_name(name: &str) -> (d: Option<Driver>)
        ensures
            d == driver_for_name(name.spec_bytes()),
            (d == Some(Driver::WinUsb)) <==> matches_either_case(
                name.spec_bytes(),
                seq![0x77u8, 0x69u8, 0x6eu8, 0x75u8, 0x73u8, 0x62u8],
                seq![0x57u8, 0x49u8, 0x4eu8, 0x55u8, 0x53u8, 0x42u8],
            ),
            (d == Some(Driver::Libusb0)) <==> matches_either_case(
                name.spec_bytes(),
                seq![0x6cu8, 0x69u8, 0x62u8, 0x75u8, 0x73u8, 0x62u8, 0x30u8],
                seq![0x4cu8, 0x49u8, 0x42u8, 0x55u8, 0x53u8, 0x42u8, 0x30u8],
            ),
    {
        proof {
            lemma_driver_names_by_letters(name.spec_bytes());
        }
        let bytes = name.as_bytes();
        let winusb: [u8; 6] = [0x77, 0x69, 0x6e, 0x75, 0x73, 0x62];
        let libusb0: [u8; 7] = [0x6c, 0x69, 0x62, 0x75, 0x73, 0x62, 0x30];
        assert(winusb@ =~= winusb_name());
        assert(libusb0@ =~= libusb0_name());
        if bytes_eq_ignore_ascii_case(bytes, winusb.as_slice()) {
            Some(Driver::WinUsb)
        } else if bytes_eq_ignore_ascii_case(bytes, libusb0.as_slice()) {
            Some(Driver::Libusb0)
        } else {
            None
        }
    }
}

/// Which driver a name selects depends only on the name once its ASCII
/// letters are put in lower case.
pub proof fn lemma_from_name_ignores_ascii_case(a: Seq<u8>, b: Seq<u8>)
    requires
        eq_ignore_ascii_case(a, b),
    ensures
        driver_for_name(a) == driver_for_name(b),
{
    lemma_same_case_insensitive_match(a, b, winusb_name());
    lemma_same_case_insensitive_match(a, b, libusb0_name());
}

proof fn lemma_same_case_insensitive_match(a: Seq<u8>, b: Seq<u8>, c: Seq<u8>)
    requires
        eq_ignore_ascii_case(a, b),
    ensures
        eq_ignore_ascii_case(a, c) == eq_ignore_ascii_case(b, c),
{
    if eq_ignore_ascii_case(a, c) {
        assert forall|i: int| 0 <= i < b.len() implies ascii_lower(#[trigger] b[i]) == ascii_lower(
            c[i],
        ) by {
            assert(ascii_lower(a[i]) == ascii_lower(b[i]));
            assert(ascii_lower(a[i]) == ascii_lower(c[i]));
        }
    }
    if eq_ignore_ascii_case(b, c) {
        assert forall|i: int| 0 <= i < a.len() implies ascii_lower(#[trigger] a[i]) == ascii_lower(
            c[i],
        ) by {
            assert(ascii_lower(a[i]) == ascii_lower(b[i]));
            assert(ascii_lower(b[i]) == ascii_lower(c[i]));
        }
    }
}

} // verus!
