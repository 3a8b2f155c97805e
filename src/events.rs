//! Events the ledger and its extensions record, in the order they happen.
use vstd::prelude::*;
use crate::address::Address;
use crate::uint::U256;
use crate::abi::{address_word, amount_word, digest_of, keccak_of, push_address, push_amount};
use vstd::string::StringSliceAdditionalSpecFns;

verus! {

/// A ledger event.
#[derive(Clone, Copy, Debug, PartialEq)]
pub enum Event {
    /// `value` tokens moved from `from` to `to`; the zero address on either side
    /// marks a mint or a burn.
    Transfer { from: Address, to: Address, value: U256 },
    /// `owner` set the allowance of `spender` to `value`.
    Approval { owner: Address, spender: Address, value: U256 },
    /// `account` paused the token.
    Paused { account: Address },
    /// `account` lifted the pause.
    Unpaused { account: Address },
}

impl Event {
    /// The canonical signature of the event.
    pub open spec fn signature(self) -> Seq<u8> {
        match self {
            Event::Transfer { .. } => "Transfer(address,address,uint256)".spec_bytes(),
            Event::Approval { .. } => "Approval(address,address,uint256)".spec_bytes(),
            Event::Paused { .. } => "Paused(address)".spec_bytes(),
            Event::Unpaused { .. } => "Unpaused(address)".spec_bytes(),
        }
    }

    /// The log topics: the digest of the signature, then the indexed fields.
    pub open spec fn topics(self) -> Seq<Seq<u8>> {
        match self {
            Event::Transfer { from, to, .. } => seq![keccak_of(self.signature()), address_word(from), address_word(to)],
            Event::Approval { owner, spender, .. } => seq![
                keccak_of(self.signature()),
                address_word(owner),
                address_word(spender),
            ],
            Event::Paused { .. } => seq![keccak_of(self.signature())],
            Event::Unpaused { .. } => seq![keccak_of(self.signature())],
        }
    }

    /// The log data: the fields that are not indexed, one word each.
    pub open spec fn data(self) -> Seq<u8> {
        match self {
            Event::Transfer { value, .. } => amount_word(value),
            Event::Approval { value, .. } => amount_word(value),
            Event::Paused { account } => address_word(account),
            Event::Unpaused { account } => address_word(account),
        }
    }

    /// The log topics of the event, each 32 bytes.
    pub fn log_topics(&self) -> (r: Vec<Vec<u8>>)
        ensures
            r@.len() == self.topics().len(),
            forall|i: int| 0 <= i < r@.len() ==> #[trigger] r@[i]@ == self.topics()[i],
    {
        let mut r: Vec<Vec<u8>> = Vec::new();
        match *self {
            Event::Transfer { from, to, .. } => {
                r.push(digest_of("Transfer(address,address,uint256)".as_bytes()));
                let mut a: Vec<u8> = Vec::new();
                push_address(&mut a, from);
                r.push(a);
                let mut b: Vec<u8> = Vec::new();
                push_address(&mut b, to);
                r.push(b);
            },
            Event::Approval { owner, spender, .. } => {
                r.push(digest_of("Approval(address,address,uint256)".as_bytes()));
                let mut a: Vec<u8> = Vec::new();
                push_address(&mut a, owner);
                r.push(a);
                let mut b: Vec<u8> = Vec::new();
                push_address(&mut b, spender);
                r.push(b);
            },
            Event::Paused { .. } => {
                r.push(digest_of("Paused(address)".as_bytes()));
            },
            Event::Unpaused { .. } => {
                r.push(digest_of("Unpaused(address)".as_bytes()));
            },
        }
        r
    }

    /// The log data of the event.
    pub fn log_data(&self) -> (r: Vec<u8>)
        ensures
            r@ == self.data(),
    {
        let mut r: Vec<u8> = Vec::new();
        match *self {
            Event::Transfer { value, .. } => push_amount(&mut r, value),
            Event::Approval { value, .. } => push_amount(&mut r, value),
            Event::Paused { account } => push_address(&mut r, account),
            Event::Unpaused { account } => push_address(&mut r, account),
        }
        r
    }
}

} // verus!
