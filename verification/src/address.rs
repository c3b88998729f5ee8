//! Identities on the chain: 32-byte addresses of accounts, assets and programs.

use vstd::prelude::*;

verus! {

/// A 32-byte identity of an account, an asset or a program.
#[derive(Clone, Copy, Debug, PartialEq, Eq, Hash)]
pub struct Address {
    pub bytes: [u8; 32],
}

impl View for Address {
    type V = Seq<u8>;

    open spec fn view(&self) -> Seq<u8> {
        self.bytes@
    }
}

impl Address {
    /// The address made of the given bytes.
    pub fn new(bytes: [u8; 32]) -> (a: Address)
        ensures
            a@ == bytes@,
            a.bytes == bytes,
    {
        Address { bytes }
    }

    /// Whether two addresses are the same identity.
    pub fn same(&self, other: &Address) -> (r: bool)
        ensures
            r == (self@ == other@),
    {
        let mut i: usize = 0;
        while i < 32
            invariant
                i <= 32,
                forall|j: int| 0 <= j < i ==> self.bytes@[j] == other.bytes@[j],
            decreases 32 - i,
        {
            if self.bytes[i] != other.bytes[i] {
                return false;
            }
            i = i + 1;
        }
        assert(self.bytes@ =~= other.bytes@);
        true
    }
}

/// Bytes of the tokenized form of the chain's native asset.
pub open spec fn native_asset_bytes() -> Seq<u8> {
    seq![
        6u8, 155, 136, 87, 254, 171, 129, 132, 251, 104, 127, 99, 70, 24, 192, 53,
        218, 196, 57, 220, 26, 235, 59, 85, 152, 160, 240, 0, 0, 0, 0, 1,
    ]
}

/// Bytes of the token program that owns classic token accounts.
pub open spec fn token_program_bytes() -> Seq<u8> {
    seq![
        6u8, 221, 246, 225, 215, 101, 161, 147, 217, 203, 225, 70, 206, 235, 121, 172,
        28, 180, 133, 237, 95, 91, 55, 145, 58, 140, 245, 133, 126, 255, 0, 169,
    ]
}

/// Bytes of the system program, which moves native value between accounts.
pub open spec fn system_program_bytes() -> Seq<u8> {
    Seq::new(32, |i: int| 0u8)
}

/// The identities that the engine is configured with, passed in rather than compiled in.
#[derive(Clone, Copy, Debug, PartialEq, Eq)]
pub struct Config {
    /// The asset identity that stands for the chain's native asset.
    pub native_asset: Address,
    /// The token program that synchronizes wrapped balances.
    pub token_program: Address,
}

impl Config {
    /// The configuration of the public deployment.
    pub fn standard() -> (c: Config)
        ensures
            c.native_asset@ == native_asset_bytes(),
            c.token_program@ == token_program_bytes(),
    {
        let native_asset = Address::new(
            [
                6u8, 155, 136, 87, 254, 171, 129, 132, 251, 104, 127, 99, 70, 24, 192, 53,
                218, 196, 57, 220, 26, 235, 59, 85, 152, 160, 240, 0, 0, 0, 0, 1,
            ],
        );
        let token_program = Address::new(
            [
                6u8, 221, 246, 225, 215, 101, 161, 147, 217, 203, 225, 70, 206, 235, 121, 172,
                28, 180, 133, 237, 95, 91, 55, 145, 58, 140, 245, 133, 126, 255, 0, 169,
            ],
        );
        assert(native_asset@ =~= native_asset_bytes());
        assert(token_program@ =~= token_program_bytes());
        Config { native_asset, token_program }
    }
}

} // verus!
