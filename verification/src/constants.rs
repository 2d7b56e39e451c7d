//! The fixed wire-level addresses of the pre-block system calls. The values
//! are fixed by the respective EIP specifications and are never configurable;
//! the executable accessors read them from `alloy_eips`, and their contracts
//! pin them to the byte values the EIPs mandate.

use vstd::prelude::*;
use crate::types::Address;

verus! {

/// The fixed sender of every protocol system call, as EIP-4788 defines it:
/// `0xfffffffffffffffffffffffffffffffffffffffe`.
pub open spec fn spec_system_address() -> Address {
    Address {
        bytes: [0xffu8, 0xffu8, 0xffu8, 0xffu8, 0xffu8, 0xffu8, 0xffu8, 0xffu8, 0xffu8, 0xffu8, 0xffu8, 0xffu8, 0xffu8, 0xffu8, 0xffu8, 0xffu8, 0xffu8, 0xffu8, 0xffu8, 0xfeu8],
    }
}

/// The blockhash-history contract of EIP-2935:
/// `0x0000F90827F1C53a10cb7A02335B175320002935`.
pub open spec fn spec_history_storage_address() -> Address {
    Address {
        bytes: [0x00u8, 0x00u8, 0xf9u8, 0x08u8, 0x27u8, 0xf1u8, 0xc5u8, 0x3au8, 0x10u8, 0xcbu8, 0x7au8, 0x02u8, 0x33u8, 0x5bu8, 0x17u8, 0x53u8, 0x20u8, 0x00u8, 0x29u8, 0x35u8],
    }
}

/// The beacon-roots contract of EIP-4788:
/// `0x000F3df6D732807Ef1319fB7B8bB8522d0Beac02`.
pub open spec fn spec_beacon_roots_address() -> Address {
    Address {
        bytes: [0x00u8, 0x0fu8, 0x3du8, 0xf6u8, 0xd7u8, 0x32u8, 0x80u8, 0x7eu8, 0xf1u8, 0x31u8, 0x9fu8, 0xb7u8, 0xb8u8, 0xbbu8, 0x85u8, 0x22u8, 0xd0u8, 0xbeu8, 0xacu8, 0x02u8],
    }
}

/// Relies on `alloy_eips::eip4788::SYSTEM_ADDRESS`: the fixed system-call
/// sender, `0xfffffffffffffffffffffffffffffffffffffffe`.
#[verifier::external_body]
pub(crate) fn system_address() -> (r: Address)
    ensures
        r == spec_system_address(),
{
    Address { bytes: alloy_eips::eip4788::SYSTEM_ADDRESS.0 .0 }
}

/// Relies on `alloy_eips::eip2935::HISTORY_STORAGE_ADDRESS`: the fixed
/// blockhash-history contract, `0x0000F90827F1C53a10cb7A02335B175320002935`.
#[verifier::external_body]
pub(crate) fn history_storage_address() -> (r: Address)
    ensures
        r == spec_history_storage_address(),
{
    Address { bytes: alloy_eips::eip2935::HISTORY_STORAGE_ADDRESS.0 .0 }
}

/// Relies on `alloy_eips::eip4788::BEACON_ROOTS_ADDRESS`: the fixed
/// beacon-roots contract, `0x000F3df6D732807Ef1319fB7B8bB8522d0Beac02`.
#[verifier::external_body]
pub(crate) fn beacon_roots_address() -> (r: Address)
    ensures
        r == spec_beacon_roots_address(),
{
    Address { bytes: alloy_eips::eip4788::BEACON_ROOTS_ADDRESS.0 .0 }
}

} // verus!
