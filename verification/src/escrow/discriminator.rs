//! Discriminators of the escrow program: the first 8 bytes of
//! `sha256("global:<instruction_name>")` for instructions and of
//! `sha256("account:<AccountName>")` for accounts.

use vstd::prelude::*;

verus! {

/// Instruction discriminator of `Deposit`.
pub const DEPOSIT: [u8; 8] = [242, 35, 198, 137, 82, 225, 242, 182];

/// Instruction discriminator of `Release`.
pub const RELEASE: [u8; 8] = [253, 249, 15, 206, 28, 127, 193, 241];

/// Instruction discriminator of `Refund`.
pub const REFUND: [u8; 8] = [2, 96, 183, 251, 63, 208, 46, 46];

/// Account discriminator of `EscrowVault`.
pub const ESCROW_VAULT: [u8; 8] = [54, 84, 41, 149, 160, 181, 85, 114];

/// Address of the escrow program: `TYEhGGkbujScDqPK1KTKCRu9cjVzjBH2Yf9Jb5L5Xtk`.
pub const ID: [u8; 32] = [
    6, 204, 107, 120, 246, 214, 75, 80, 43, 209, 86, 89, 23, 120, 84, 37, 182, 167, 3, 10, 22,
    13, 229, 104, 153, 46, 219, 109, 80, 168, 252, 65,
];

} // verus!
