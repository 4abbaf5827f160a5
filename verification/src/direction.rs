//! The direction of a USB endpoint, read from its address.
use vstd::prelude::*;

verus! {

/// Direction of a transfer: `Out` is host to device, `In` device to host.
#[derive(Clone, Copy, Debug, PartialEq, Eq, Structural)]
pub enum Direction {
    Out,
    In,
}

/// The direction that an endpoint address (or a `bmRequestType`) names:
/// bit 7 set means `In`.
pub open spec fn direction_of(address: u8) -> Direction {
    if address < 0x80 {
        Direction::Out
    } else {
        Direction::In
    }
}

/// An address names `In` exactly when its bit 7 is set.
pub proof fn lemma_direction_is_bit_seven(address: u8)
    ensures
        (direction_of(address) == Direction::In) <==> (address & 0x80u8 != 0),
        (direction_of(address) == Direction::Out) <==> (address & 0x80u8 == 0),
{
    assert((address & 0x80u8 == 0) <==> (address < 0x80)) by (bit_vector);
}

impl Direction {
    /// Reads the direction bit (bit 7) of an endpoint address.
    pub fn from_address(address: u8) -> (d: Direction)
        ensures
            d == direction_of(address),
            (d == Direction::In) <==> (address & 0x80u8 != 0),
            (d == Direction::Out) <==> (address & 0x80u8 == 0),
    {
        proof {
            lemma_direction_is_bit_seven(address);
        }
        let masked: u8 = address & 0x80;
        assert(masked == 0 <==> address < 0x80) by (bit_vector)
            requires
                masked == address & 0x80,
        ;
        if masked == 0 {
            Direction::Out
        } else {
            Direction::In
        }
    }
}

} // verus!
