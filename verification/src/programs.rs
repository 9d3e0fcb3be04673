//! The fixed addresses that the registry refers to: its own, under which its
//! records are derived, and those of the services that it calls.
use crate::address::Address;
use vstd::prelude::*;

verus! {

/// The bytes of this program's address, `EK6CnRLBQrXKcsVdHmPcbuUD7ko57hbEgKk6P9iXFHvF`.
pub const ID_BYTES: [u8; 32] = [
    197, 202, 68, 144, 198, 88, 84, 120, 246, 165, 29, 98, 214, 124, 93, 67,
    226, 204, 239, 10, 41, 223, 146, 147, 74, 118, 125, 250, 32, 208, 151, 0,
];

/// The bytes of the system program's address, `11111111111111111111111111111111`.
pub const SYSTEM_PROGRAM_BYTES: [u8; 32] = [
    0, 0, 0, 0, 0, 0, 0, 0, 0, 0, 0, 0, 0, 0, 0, 0,
    0, 0, 0, 0, 0, 0, 0, 0, 0, 0, 0, 0, 0, 0, 0, 0,
];

/// The bytes of the token program's address, `TokenkegQfeZyiNwAJbNbGKPFXCWuBvf9Ss623VQ5DA`.
pub const TOKEN_PROGRAM_BYTES: [u8; 32] = [
    6, 221, 246, 225, 215, 101, 161, 147, 217, 203, 225, 70, 206, 235, 121, 172,
    28, 180, 133, 237, 95, 91, 55, 145, 58, 140, 245, 133, 126, 255, 0, 169,
];

/// The bytes of the associated token program's address,
/// `ATokenGPvbdGVxr1b2hvZbsiqW5xWH25efTNsLJA8knL`.
pub const ASSOCIATED_TOKEN_PROGRAM_BYTES: [u8; 32] = [
    140, 151, 37, 143, 78, 36, 137, 241, 187, 61, 16, 41, 20, 142, 13, 131,
    11, 90, 19, 153, 218, 255, 16, 132, 4, 142, 123, 216, 219, 233, 248, 89,
];

/// The bytes of the token metadata program's address,
/// `metaqbxxUerdq28cj1RbAWkYQm3ybzjb6a8bt518x1s`.
pub const METADATA_PROGRAM_BYTES: [u8; 32] = [
    11, 112, 101, 177, 227, 209, 124, 69, 56, 157, 82, 127, 107, 4, 195, 205,
    88, 184, 108, 115, 26, 160, 253, 181, 73, 182, 209, 188, 3, 248, 41, 70,
];

/// The bytes of the rent sysvar's address, `SysvarRent111111111111111111111111111111111`.
pub const RENT_BYTES: [u8; 32] = [
    6, 167, 213, 23, 25, 44, 92, 81, 33, 140, 201, 76, 61, 74, 241, 127,
    88, 218, 238, 8, 155, 161, 253, 68, 227, 219, 217, 138, 0, 0, 0, 0,
];

/// The address of this program.
pub open spec fn registry() -> Address {
    Address { bytes: ID_BYTES }
}

/// The address of the system program, which allocates storage.
pub open spec fn system_program() -> Address {
    Address { bytes: SYSTEM_PROGRAM_BYTES }
}

/// The address of the token program, the asset service.
pub open spec fn token_program() -> Address {
    Address { bytes: TOKEN_PROGRAM_BYTES }
}

/// The address of the associated token program, which derives a party's vault.
pub open spec fn associated_token_program() -> Address {
    Address { bytes: ASSOCIATED_TOKEN_PROGRAM_BYTES }
}

/// The address of the token metadata program, the metadata service.
pub open spec fn metadata_program() -> Address {
    Address { bytes: METADATA_PROGRAM_BYTES }
}

/// The address of the rent sysvar.
pub open spec fn rent() -> Address {
    Address { bytes: RENT_BYTES }
}

/// The address of this program.
#[verifier::when_used_as_spec(registry)]
pub fn id() -> (r: Address)
    ensures
        r == registry(),
{
    Address { bytes: ID_BYTES }
}

/// The address of the system program.
pub fn system_program_id() -> (r: Address)
    ensures
        r == system_program(),
{
    Address { bytes: SYSTEM_PROGRAM_BYTES }
}

/// The address of the token program.
pub fn token_program_id() -> (r: Address)
    ensures
        r == token_program(),
{
    Address { bytes: TOKEN_PROGRAM_BYTES }
}

/// The address of the associated token program.
pub fn associated_token_program_id() -> (r: Address)
    ensures
        r == associated_token_program(),
{
    Address { bytes: ASSOCIATED_TOKEN_PROGRAM_BYTES }
}

/// The address of the token metadata program.
pub fn metadata_program_id() -> (r: Address)
    ensures
        r == metadata_program(),
{
    Address { bytes: METADATA_PROGRAM_BYTES }
}

/// The address of the rent sysvar.
pub fn rent_id() -> (r: Address)
    ensures
        r == rent(),
{
    Address { bytes: RENT_BYTES }
}

} // verus!
