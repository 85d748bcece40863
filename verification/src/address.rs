//! The two address spaces: the live process, and a local copy of one module.

use vstd::prelude::*;

verus! {

/// The number of addresses in the process's address space.
pub open spec fn address_space() -> int {
    0x1_0000_0000_0000_0000
}

/// `value` reduced into the address space, as the processor reduces an
/// address that ran over either end.
pub open spec fn wrap_address(value: int) -> u64 {
    (value % address_space()) as u64
}

/// A byte position in the target process.
#[derive(Clone, Copy, Debug, PartialEq, Eq, Structural)]
pub struct RemoteAddress(pub u64);

/// A byte position inside the snapshot of one module.
#[derive(Clone, Copy, Debug, PartialEq, Eq, Structural)]
pub struct LocalAddress(pub usize);

/// `total` reduced into the address space.
fn reduce(total: i128) -> (address: u64)
    requires
        -address_space() <= total < 4 * address_space(),
    ensures
        address == wrap_address(total as int),
{
    let lifted: u128 = (total + 0x1_0000_0000_0000_0000) as u128;
    (lifted % 0x1_0000_0000_0000_0000) as u64
}

impl RemoteAddress {
    /// The address `delta` bytes away, reduced into the address space.
    pub open spec fn displaced(self, delta: int) -> RemoteAddress {
        RemoteAddress(wrap_address(self.0 + delta))
    }

    /// Moves the address by a signed distance. The sum wraps at both ends of
    /// the address space.
    pub fn wrapping_offset(self, delta: i64) -> (moved: RemoteAddress)
        ensures
            moved == self.displaced(delta as int),
            0 <= self.0 + delta < address_space() ==> moved.0 == self.0 + delta,
    {
        RemoteAddress(reduce(self.0 as i128 + delta as i128))
    }

    /// The address that an instruction at `self` refers to, when it is
    /// `length` bytes long and encodes `displacement`: the displacement counts
    /// from the first byte after the instruction. The sum wraps at both ends
    /// of the address space.
    pub fn relative_target(self, length: usize, displacement: i32) -> (target: RemoteAddress)
        ensures
            target == self.displaced(length + displacement),
            0 <= self.0 + length + displacement < address_space() ==> target.0 == self.0 + length
                + displacement,
    {
        RemoteAddress(reduce(self.0 as i128 + length as i128 + displacement as i128))
    }

    /// The address `count` bytes further on, or `None` where that lies beyond
    /// the end of the address space.
    pub fn checked_advance(self, count: usize) -> (moved: Option<RemoteAddress>)
        ensures
            moved == (if self.0 + count < address_space() {
                Some(RemoteAddress((self.0 + count) as u64))
            } else {
                None
            }),
    {
        match self.0.checked_add(count as u64) {
            Some(value) => Some(RemoteAddress(value)),
            None => None,
        }
    }
}

} // verus!
