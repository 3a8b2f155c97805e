//! Burn rights: holders destroy their own tokens.
use vstd::prelude::*;
use crate::address::{Address, zero_address};
use crate::erc20::{Erc20, Erc20Error, Erc20InvalidSpender};
use crate::my_token::MyTokenParams;
use crate::uint::{U256, u256_modulus};

verus! {

/// A ledger whose holders may burn.
pub struct Erc20Burnable {
    pub erc20: Erc20<MyTokenParams>,
}

impl Erc20Burnable {
    /// An empty ledger.
    pub fn new() -> (r: Erc20Burnable)
        ensures
            r.erc20@.wf(),
            r.erc20@.supply() == 0,
            forall|a: Address| #[trigger] r.erc20@.balance(a) == 0,
    {
        Erc20Burnable { erc20: Erc20::new() }
    }

    /// Destroys `amount` of `account`'s tokens.
    pub fn burn(&mut self, account: Address, amount: U256) -> (r: Result<(), Erc20Error>)
        requires
            old(self).erc20@.wf(),
        ensures
            final(self).erc20@.wf(),
            account == zero_address() ==> r == Err::<(), Erc20Error>(
                Erc20Error::Erc20InvalidSpender(Erc20InvalidSpender { spender: account }),
            ) && final(self).erc20@ == old(self).erc20@,
            account != zero_address() && amount@ > old(self).erc20@.balance(account) ==> final(self).erc20@ == old(
                self,
            ).erc20@ && (r matches Err(Erc20Error::Erc20InsufficientBalance(x)) && x.sender == account
                && x.balance@ == old(self).erc20@.balance(account) && x.needed == amount),
            account != zero_address() && amount@ <= old(self).erc20@.balance(account) ==> r is Ok
                && final(self).erc20@.is_update_of(old(self).erc20@, account, zero_address(), amount),
    {
        self.erc20.burn(account, amount)
    }

    /// The balance of `address`.
    pub fn balance_of_burn(&self, address: Address) -> (r: Result<U256, Erc20Error>)
        requires
            self.erc20@.wf(),
        ensures
            r matches Ok(v) && v@ == self.erc20@.balance(address),
    {
        self.erc20.balance_of(address)
    }

    /// `10000 + (balance - amount)`, both operations wrapping modulo 2^256.
    pub fn diff(&self, address: Address, amount: U256) -> (r: Result<U256, Erc20Error>)
        requires
            self.erc20@.wf(),
        ensures
            r matches Ok(v) && v@ == (10000 + (self.erc20@.balance(address) - amount@) % u256_modulus())
                % u256_modulus(),
    {
        let balance = self.erc20.balances.get(&address);
        let left = balance.wrapping_sub(&amount);
        Ok(U256::from_u64(10000).wrapping_add(&left))
    }
}

} // verus!
