//! The supply cap: a ceiling on the total supply.
use vstd::prelude::*;
use crate::abi::{amount_word, encode_error, push_amount, selector};
use crate::uint::U256;
use vstd::string::StringSliceAdditionalSpecFns;

verus! {

/// The total supply would exceed the cap.
#[derive(Clone, Copy, Debug, PartialEq)]
pub struct ERC20ExceededCap {
    /// The supply the operation would reach.
    pub increased_supply: U256,
    /// The cap.
    pub cap: U256,
}

/// The supplied cap is not a valid cap.
#[derive(Clone, Copy, Debug, PartialEq)]
pub struct ERC20InvalidCap {
    pub cap: U256,
}

/// The cap policy's errors.
#[derive(Clone, Copy, Debug, PartialEq)]
pub enum Erc20CapError {
    ERC20ExceededCap(ERC20ExceededCap),
    ERC20InvalidCap(ERC20InvalidCap),
}

impl Erc20CapError {
    /// The canonical signature of the error, whose digest gives its selector.
    pub open spec fn signature(self) -> Seq<u8> {
        match self {
            Erc20CapError::ERC20ExceededCap(_) => "ERC20ExceededCap(uint256,uint256)".spec_bytes(),
            Erc20CapError::ERC20InvalidCap(_) => "ERC20InvalidCap(uint256)".spec_bytes(),
        }
    }

    /// The error's fields, one 32-byte word each.
    pub open spec fn fields(self) -> Seq<u8> {
        match self {
            Erc20CapError::ERC20ExceededCap(e) => amount_word(e.increased_supply) + amount_word(e.cap),
            Erc20CapError::ERC20InvalidCap(e) => amount_word(e.cap),
        }
    }

    /// The payload a caller receives: selector, then fields.
    pub open spec fn payload(self) -> Seq<u8> {
        selector(self.signature()) + self.fields()
    }

    /// Encodes the error as its payload.
    pub fn encode(&self) -> (r: Vec<u8>)
        ensures
            r@ == self.payload(),
    {
        let mut fields: Vec<u8> = Vec::new();
        match *self {
            Erc20CapError::ERC20ExceededCap(e) => {
                push_amount(&mut fields, e.increased_supply);
                push_amount(&mut fields, e.cap);
                assert(fields@ =~= self.fields());
                encode_error("ERC20ExceededCap(uint256,uint256)", fields.as_slice())
            },
            Erc20CapError::ERC20InvalidCap(e) => {
                push_amount(&mut fields, e.cap);
                encode_error("ERC20InvalidCap(uint256)", fields.as_slice())
            },
        }
    }
}

/// The cap policy's state: the ceiling, zero until it is set.
pub struct Erc20Cap {
    pub cap: U256,
}

impl Erc20Cap {
    /// A policy whose cap is not set yet.
    pub fn new() -> (r: Erc20Cap)
        ensures
            r.cap@ == 0,
    {
        Erc20Cap { cap: U256::zero() }
    }

    /// Sets the cap; zero is no valid cap.
    pub fn set_cap(&mut self, cap: U256) -> (r: Result<(), Erc20CapError>)
        ensures
            cap@ == 0 ==> r == Err::<(), Erc20CapError>(Erc20CapError::ERC20InvalidCap(ERC20InvalidCap { cap }))
                && *final(self) == *old(self),
            cap@ != 0 ==> r is Ok && final(self).cap == cap,
    {
        if cap.is_zero() {
            return Err(Erc20CapError::ERC20InvalidCap(ERC20InvalidCap { cap }));
        }
        self.cap = cap;
        Ok(())
    }

    /// Fails when `total_supply` is above the cap.
    pub fn when_cap_not_exceeded(&self, total_supply: U256) -> (r: Result<(), Erc20CapError>)
        ensures
            total_supply@ > self.cap@ ==> r == Err::<(), Erc20CapError>(
                Erc20CapError::ERC20ExceededCap(ERC20ExceededCap { increased_supply: total_supply, cap: self.cap }),
            ),
            total_supply@ <= self.cap@ ==> r is Ok,
    {
        if self.cap.lt(&total_supply) {
            return Err(
                Erc20CapError::ERC20ExceededCap(ERC20ExceededCap { increased_supply: total_supply, cap: self.cap }),
            );
        }
        Ok(())
    }
}

} // verus!
