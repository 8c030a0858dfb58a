use crate::error::StakeError;
use crate::pubkey::Pubkey;
use vstd::prelude::*;

verus! {

/// The first seed of every farm's address: the bytes of `stake-farm`.
pub open spec fn farm_seed() -> Seq<u8> {
    seq![115u8, 116u8, 97u8, 107u8, 101u8, 45u8, 102u8, 97u8, 114u8, 109u8]
}

/// The seeds that a farm signs with: the seeds of its address, which are
/// `stake-farm` and its manager's address, and then the bump.
pub open spec fn signer_seeds(manager: Pubkey, bump: u8) -> Seq<Seq<u8>> {
    seq![farm_seed(), manager.bytes@, seq![bump]]
}

/// The token by which a farm moves funds out of its own escrow. It holds
/// what the farm's address was derived from, and so can be made only for
/// that farm.
#[derive(Clone, Copy, Debug, PartialEq, Eq)]
pub struct FarmSigner {
    /// The manager of the farm.
    pub manager: Pubkey,
    /// The bump of the farm's address.
    pub bump: u8,
}

impl FarmSigner {
    /// The seeds to hand to the token service, as bytes.
    pub fn seeds(&self) -> (seeds: Vec<Vec<u8>>)
        ensures
            seeds@.map_values(|seed: Vec<u8>| seed@) == signer_seeds(self.manager, self.bump),
    {
        let mut prefix: Vec<u8> = Vec::new();
        prefix.push(115u8);
        prefix.push(116u8);
        prefix.push(97u8);
        prefix.push(107u8);
        prefix.push(101u8);
        prefix.push(45u8);
        prefix.push(102u8);
        prefix.push(97u8);
        prefix.push(114u8);
        prefix.push(109u8);
        let mut manager: Vec<u8> = Vec::new();
        let mut i: usize = 0;
        while i < 32
            invariant
                i <= 32,
                manager@ == self.manager.bytes@.subrange(0, i as int),
            decreases 32 - i,
        {
            manager.push(self.manager.bytes[i]);
            i += 1;
        }
        let mut bump: Vec<u8> = Vec::new();
        bump.push(self.bump);
        let mut seeds: Vec<Vec<u8>> = Vec::new();
        seeds.push(prefix);
        seeds.push(manager);
        seeds.push(bump);
        proof {
            assert(prefix@ == farm_seed());
            assert(manager@ == self.manager.bytes@);
            assert(seeds@.map_values(|seed: Vec<u8>| seed@) == signer_seeds(
                self.manager,
                self.bump,
            ));
        }
        seeds
    }
}

/// A request to the token service: move `amount` tokens from one token
/// account to another.
#[derive(Clone, Copy, Debug, PartialEq, Eq)]
pub struct Transfer {
    /// The owner of the account that is debited.
    pub authority: Pubkey,
    /// The token account that is debited.
    pub from: Pubkey,
    /// The token account that is credited.
    pub to: Pubkey,
    /// The number of tokens to move.
    pub amount: u64,
    /// For a transfer out of a farm's escrow, the farm's signing token; for a
    /// transfer that its authority signs in person, nothing.
    pub signer: Option<FarmSigner>,
}

impl Transfer {
    /// Whether `self` takes back what `deposit` brought: the same amount,
    /// from the account that was credited to the account that was debited.
    pub open spec fn gives_back(self, deposit: Transfer) -> bool {
        &&& self.from == deposit.to
        &&& self.to == deposit.from
        &&& self.amount == deposit.amount
    }
}

/// The removal of a record: the storage that it took is paid back.
#[derive(Clone, Copy, Debug, PartialEq, Eq)]
pub struct Closing {
    /// The address of the record to remove.
    pub record: Pubkey,
    /// The account that is paid the cost of the record's storage.
    pub refund_to: Pubkey,
}

/// What the token service answered to a transfer.
#[derive(Clone, Copy, Debug, PartialEq, Eq)]
pub enum Receipt {
    /// The tokens have been moved.
    Done,
    /// The account to be debited holds less than the amount.
    InsufficientFunds,
}

/// Concludes an operation once its transfer has been tried. What the
/// operation came to stands only if the tokens have been moved: if they have
/// not, the operation fails as a whole, and none of it is to be kept.
pub fn settle<T>(outcome: T, receipt: Receipt) -> (r: Result<T, StakeError>)
    ensures
        receipt == Receipt::Done ==> r == Ok::<T, StakeError>(outcome),
        receipt == Receipt::InsufficientFunds ==> r matches Err(StakeError::InsufficientFunds),
{
    match receipt {
        Receipt::Done => Ok(outcome),
        Receipt::InsufficientFunds => Err(StakeError::InsufficientFunds),
    }
}

} // verus!
