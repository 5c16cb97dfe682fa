//! Verified core of an espresso-machine-class appliance controller:
//! a multiplexer-aware bus arbiter, a bounded inter-task message fabric,
//! a host-link codec with a liveness handshake, the operating state
//! machine they drive, and the register codecs of the attached chips.

use vstd::prelude::*;

pub mod arbiter;
pub mod codec;
pub mod dimmer;
pub mod fabric;
pub mod handshake;
pub mod message;
pub mod registers;
pub mod runtime;
pub mod sensor;
pub mod transport;

verus! {

/// Maximum size in bytes of one packet on the host link.
pub const MAX_PACKET_SIZE: usize = 64;

/// Bytes of one packet left for the payload after the two header bytes.
pub const MAX_PAYLOAD_SIZE: usize = 62;

/// Marks the error type of a peripheral driver.
pub trait PeripheralError {

}

/// The signed value of a `len`-bit two's-complement field: the raw bits
/// while the field's sign bit is down, and their value less the field's
/// modulus once it is up.
pub open spec fn signed_field(bits: u16, len: usize) -> int {
    if (bits >> ((len - 1) as u16)) & 1u16 == 0 {
        bits as int
    } else {
        bits as int - ((1u32 << (len as u32)) as int)
    }
}

/// Reinterprets a `len`-bit sensor field as its signed value. The shift
/// and divisor describe how the hardware's field is brought to the
/// machine width: the field is shifted up until its sign bit is the
/// machine sign bit, and the divisor scales the result back down.
pub fn bits_to_i16(bits: u16, len: usize, divisor: i16, shift: usize) -> (r: i16)
    requires
        2 <= len <= 16,
        shift == 16 - len,
        divisor == (1u16 << ((16 - len) as u16)) as i16,
        len == 16 || bits < (1u16 << (len as u16)),
    ensures
        r as int == signed_field(bits, len),
{
    let l: u16 = len as u16;
    proof {
        assert({
            &&& (bits >> ((l - 1) as u16)) == (bits >> ((len - 1) as u16))
            &&& ((bits >> ((l - 1) as u16)) & 1 == 1 ==> {
                &&& -0x8000 <= bits as i32 - (1i32 << (l as u32))
                &&& bits as i32 - (1i32 << (l as u32)) < 0
                &&& bits as i32 - (1i32 << (l as u32)) == bits as int - ((1u32 << (len as u32))
                    as int)
            })
            &&& ((bits >> ((l - 1) as u16)) & 1 == 0 || (bits >> ((l - 1) as u16)) & 1 == 1)
            &&& ((bits >> ((l - 1) as u16)) & 1 == 0 ==> bits < 0x8000)
        }) by (bit_vector)
            requires
                l == len as u16,
                2 <= len,
                len <= 16,
                len == 16 || bits < (1u16 << (len as u16)),
        ;
    }
    let negative = (bits >> (l - 1)) & 1 == 1;
    if negative {
        let value: i32 = bits as i32 - (1i32 << (l as u32));
        value as i16
    } else {
        bits as i16
    }
}

} // verus!
