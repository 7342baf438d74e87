use vstd::prelude::*;

verus! {

/// Lamports in one SOL.
pub const LAMPORTS_PER_SOL: u64 = 1_000_000_000;

/// Whether an account with `balance` lamports holds less than `minimum_sol`
/// whole SOL, so that an airdrop is to be asked for before it pays fees or
/// rent.
pub fn needs_airdrop(balance: u64, minimum_sol: u64) -> (r: bool)
    ensures
        r == (balance < minimum_sol * LAMPORTS_PER_SOL),
{
    match minimum_sol.checked_mul(LAMPORTS_PER_SOL) {
        Some(minimum) => balance < minimum,
        None => true,
    }
}

/// Lamports to ask for in an airdrop of `sol` whole SOL, if the amount can
/// be written down at all.
pub fn airdrop_lamports(sol: u64) -> (r: Option<u64>)
    ensures
        r == if sol * LAMPORTS_PER_SOL <= u64::MAX {
            Some((sol * LAMPORTS_PER_SOL) as u64)
        } else {
            None
        },
{
    sol.checked_mul(LAMPORTS_PER_SOL)
}

} // verus!
