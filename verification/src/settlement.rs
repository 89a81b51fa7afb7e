//! Settlement orders: what the caller has to ask of the token program.
//!
//! The ledger moves no balance itself. An operation that succeeds answers
//! with the orders that settle it, in the order in which they are to be
//! carried out. The token program applies each order whole or fails, and a
//! failure of one undoes the operation.

use vstd::prelude::*;

verus! {

/// A token account that takes part in an operation.
#[derive(Clone, Copy, Debug, PartialEq, Eq, Structural, Hash)]
pub enum Wallet {
    /// The token account of the holder who makes the call.
    Holder,
    /// The account that keeps locked principal.
    Custody,
    /// The account that keeps the reward pool.
    RewardReserve,
}

/// Who signs an order.
#[derive(Clone, Copy, Debug, PartialEq, Eq, Structural, Hash)]
pub enum Authority {
    /// The holder who makes the call.
    Holder,
    /// The vault authority: the capability over custody and reward reserve,
    /// which only an order issued by the ledger carries.
    Vault,
}

/// One request to the token program.
#[derive(Clone, Copy, Debug, PartialEq, Eq, Structural, Hash)]
pub enum Settlement {
    /// Move `amount` from one token account to another.
    Transfer { from: Wallet, to: Wallet, amount: u64, authority: Authority },
    /// Burn `amount` of the payment token from the caller's account.
    Burn { amount: u64 },
    /// Mint `amount` of a certificate to the caller's account.
    MintTo { amount: u64 },
    /// Let the delegate spend up to `amount` from the caller's account.
    Approve { amount: u64 },
}

impl Settlement {
    /// An order is sound when the owner of the funds it takes signs it: the
    /// vault authority for custody and reward reserve, the holder for the
    /// holder's own account.
    pub open spec fn is_sound(&self) -> bool {
        match self {
            Settlement::Transfer { from, to, amount, authority } => match from {
                Wallet::Holder => *authority == Authority::Holder,
                _ => *authority == Authority::Vault,
            },
            _ => true,
        }
    }

    /// What the order adds to the balance of `wallet`; negative where it
    /// takes from it.
    pub open spec fn change_of(&self, wallet: Wallet) -> int {
        match self {
            Settlement::Transfer { from, to, amount, authority } => (if *to == wallet {
                *amount as int
            } else {
                0
            }) - (if *from == wallet {
                *amount as int
            } else {
                0
            }),
            _ => 0,
        }
    }
}

/// What a list of orders adds to the balance of `wallet`, all in all.
pub open spec fn net_change(orders: Seq<Settlement>, wallet: Wallet) -> int
    decreases orders.len(),
{
    if orders.len() == 0 {
        0
    } else {
        net_change(orders.drop_last(), wallet) + orders.last().change_of(wallet)
    }
}

} // verus!
