//! The addresses of the token mints, as the 32 bytes of each.

use vstd::prelude::*;

verus! {

/// The stablecoin: `5YMkXAYccHSGnHn9nob9xEvv6Pvka9DZWH7nTbotTu9E`.
pub const HYUSD: [u8; 32] = [
    67, 119, 55, 28, 116, 248, 110, 161, 139, 241, 127, 177, 96, 51, 132, 82, 170, 99, 250, 220,
    172, 213, 163, 31, 179, 172, 245, 75, 165, 46, 136, 173,
];

/// The stability pool share: `HnnGv3HrSqjRpgdFmx7vQGjntNEoex1SU4e9Lxcxuihz`.
pub const SHYUSD: [u8; 32] = [
    249, 117, 81, 179, 93, 119, 70, 232, 194, 120, 98, 213, 138, 242, 42, 137, 35, 6, 138, 76,
    121, 107, 185, 149, 104, 252, 217, 243, 101, 0, 244, 189,
];

/// The levercoin: `4sWNB8zGWHkh6UnmwiEtzNxL4XrN7uK9tosbESbJFfVs`.
pub const XSOL: [u8; 32] = [
    57, 131, 77, 239, 157, 208, 131, 246, 140, 63, 218, 76, 237, 164, 0, 43, 111, 50, 88, 172,
    215, 74, 147, 226, 42, 44, 65, 105, 237, 157, 16, 34,
];

/// A collateral asset: `J1toso1uCk3RLmjorhTtrVwY9HJ7X8V9yYac6Y7kGCPn`.
pub const JITOSOL: [u8; 32] = [
    252, 209, 65, 233, 131, 44, 175, 16, 173, 145, 116, 149, 202, 15, 39, 27, 91, 41, 60, 212,
    112, 39, 234, 115, 112, 7, 237, 64, 235, 57, 160, 189,
];

/// A collateral asset: `hy1oXYgrBW6PVcJ4s6s2FKavRdwgWTXdfE69AxT7kPT`.
pub const HYLOSOL: [u8; 32] = [
    10, 126, 145, 65, 88, 152, 199, 212, 16, 99, 219, 48, 216, 61, 55, 105, 128, 41, 105, 173,
    139, 149, 244, 242, 150, 207, 148, 208, 108, 193, 11, 82,
];

/// Whether two addresses are the same 32 bytes.
pub fn same_address(a: &[u8; 32], b: &[u8; 32]) -> (r: bool)
    ensures
        r == (a@ == b@),
{
    let mut i: usize = 0;
    while i < 32
        invariant
            i <= 32,
            forall|j: int| 0 <= j < i ==> a@[j] == b@[j],
        decreases 32 - i,
    {
        if a[i] != b[i] {
            return false;
        }
        i = i + 1;
    }
    assert(a@ =~= b@);
    true
}

} // verus!
