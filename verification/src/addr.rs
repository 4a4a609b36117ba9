use vstd::prelude::*;

verus! {

/// A 32-byte account address, held as four 64-bit words in little-endian
/// byte order (word 0 holds bytes 0..8, word 3 holds bytes 24..32).
#[derive(Clone, Copy, PartialEq, Eq, Structural, Debug, Hash)]
pub struct Address {
    pub w0: u64,
    pub w1: u64,
    pub w2: u64,
    pub w3: u64,
}

impl Address {
    pub fn new(w0: u64, w1: u64, w2: u64, w3: u64) -> (a: Address)
        ensures
            a == (Address { w0, w1, w2, w3 }),
    {
        Address { w0, w1, w2, w3 }
    }
}

/// The system program's address: all zero bytes.
pub open spec fn spec_system_program() -> Address {
    Address { w0: 0, w1: 0, w2: 0, w3: 0 }
}

/// The token program's address (base58 `TokenkegQfeZyiNwAJbNbGKPFXCWuBvf9Ss623VQ5DA`).
pub open spec fn spec_token_program() -> Address {
    Address {
        w0: 0x93a165d7e1f6dd06,
        w1: 0xac79ebce46e1cbd9,
        w2: 0x91375b5fed85b41c,
        w3: 0xa900ff7e85f58c3a,
    }
}

/// The native mint's address (base58 `So11111111111111111111111111111111111111112`).
pub open spec fn spec_native_mint() -> Address {
    Address {
        w0: 0x8481abfe57889b06,
        w1: 0x35c01846637f68fb,
        w2: 0x553beb1adc39c4da,
        w3: 0x0100000000f0a098,
    }
}

/// The rent sysvar's address (base58 `SysvarRent111111111111111111111111111111111`).
pub open spec fn spec_rent_sysvar() -> Address {
    Address {
        w0: 0x515c2c1917d5a706,
        w1: 0x7ff14a3d4cc98c21,
        w2: 0x44fda19b08eeda58,
        w3: 0x000000008ad9dbe3,
    }
}

pub fn system_program_address() -> (a: Address)
    ensures
        a == spec_system_program(),
{
    crate::sdk::sdk_system_program_id()
}

pub fn token_program_address() -> (a: Address)
    ensures
        a == spec_token_program(),
{
    crate::sdk::sdk_token_program_id()
}

pub fn native_mint_address() -> (a: Address)
    ensures
        a == spec_native_mint(),
{
    crate::sdk::sdk_native_mint_id()
}

pub fn rent_sysvar_address() -> (a: Address)
    ensures
        a == spec_rent_sysvar(),
{
    crate::sdk::sdk_rent_sysvar_id()
}

/// A 32-byte reference to a recent ledger state (a recent block hash),
/// held like an [`Address`] as four little-endian 64-bit words.
#[derive(Clone, Copy, PartialEq, Eq, Structural, Debug)]
pub struct BlockRef {
    pub w0: u64,
    pub w1: u64,
    pub w2: u64,
    pub w3: u64,
}

impl BlockRef {
    pub fn new(w0: u64, w1: u64, w2: u64, w3: u64) -> (b: BlockRef)
        ensures
            b == (BlockRef { w0, w1, w2, w3 }),
    {
        BlockRef { w0, w1, w2, w3 }
    }
}

} // verus!
