//! The identity under which the program is deployed.

use vstd::prelude::*;

verus! {

/// The program's address, `42jc2ZN9851SM6NWMhZbowzezQrbLHP3niw12v5zVwGY` in
/// base58, as its thirty-two bytes.
pub const ID: [u8; 32] = [
    0x2d, 0x04, 0xd0, 0x61, 0x47, 0x3a, 0x20, 0x68,
    0xa2, 0x50, 0x91, 0x74, 0x93, 0xe6, 0x46, 0x2c,
    0xc0, 0xb0, 0x0d, 0x0c, 0xa8, 0x69, 0x9d, 0xbd,
    0x18, 0x80, 0x04, 0x9c, 0x52, 0x26, 0x82, 0x4d,
];

/// Returns the program's address.
pub fn id() -> (address: [u8; 32])
    ensures
        address@ == ID@,
{
    ID
}

} // verus!
