//! The ledger core: balances, allowances and total supply.
use vstd::prelude::*;
use core::marker::PhantomData;
use crate::abi::{address_word, amount_word, encode_error, push_address, push_amount, selector};
use crate::address::{Address, zero_address};
use crate::events::Event;
use crate::table::{
    AllowanceKey, AmountTable, keys_unique, lookup, sum, lemma_lookup_absent, lemma_lookup_at, lemma_lookup_in_range,
    lemma_lookup_le_sum,
};
use crate::uint::{U256, checked_add, u256_max, lemma_u256_range};
use vstd::string::StringSliceAdditionalSpecFns;

verus! {

/// The fixed metadata of a token.
pub trait Erc20Params {
    /// Token name.
    const NAME: &'static str;
    /// Token symbol.
    const SYMBOL: &'static str;
    /// Token decimals.
    const DECIMALS: u8;
}

/// An account's balance is smaller than the amount it is asked to give.
#[derive(Clone, Copy, Debug, PartialEq)]
pub struct Erc20InsufficientBalance {
    /// The account whose tokens were to move.
    pub sender: Address,
    /// Its balance.
    pub balance: U256,
    /// The amount asked for.
    pub needed: U256,
}

/// A spender's allowance is smaller than the amount it tries to move.
#[derive(Clone, Copy, Debug, PartialEq)]
pub struct Erc20InsufficientAllowance {
    /// The owner of the tokens.
    pub owner: Address,
    /// The allowance left to the spender.
    pub allowance: U256,
    /// The amount asked for.
    pub needed: U256,
}

/// The approving account is the zero address.
#[derive(Clone, Copy, Debug, PartialEq)]
pub struct Erc20InvalidApprover {
    pub approver: Address,
}

/// The spender, or the account tokens are taken from, is the zero address.
#[derive(Clone, Copy, Debug, PartialEq)]
pub struct Erc20InvalidSpender {
    pub spender: Address,
}

/// The receiving account is the zero address.
#[derive(Clone, Copy, Debug, PartialEq)]
pub struct Erc20InvalidReceiver {
    pub receiver: Address,
}

/// An arithmetic failure, encoded as Solidity's `Panic(uint256)`; code 0x11
/// reports a result outside the 256-bit range.
#[derive(Clone, Copy, Debug, PartialEq)]
pub struct Panic {
    pub code: U256,
}

/// The ledger core's errors.
#[derive(Clone, Copy, Debug, PartialEq)]
pub enum Erc20Error {
    Erc20InsufficientBalance(Erc20InsufficientBalance),
    Erc20InsufficientAllowance(Erc20InsufficientAllowance),
    Erc20InvalidSpender(Erc20InvalidSpender),
    Erc20InvalidApprover(Erc20InvalidApprover),
    Erc20InvalidReceiver(Erc20InvalidReceiver),
    Panic(Panic),
}

impl Erc20Error {
    /// The canonical signature of the error, whose digest gives its selector.
    pub open spec fn signature(self) -> Seq<u8> {
        match self {
            Erc20Error::Erc20InsufficientBalance(_) => "Erc20InsufficientBalance(address,uint256,uint256)".spec_bytes(),
            Erc20Error::Erc20InsufficientAllowance(_) => "Erc20InsufficientAllowance(address,uint256,uint256)".spec_bytes(),
            Erc20Error::Erc20InvalidSpender(_) => "Erc20InvalidSpender(address)".spec_bytes(),
            Erc20Error::Erc20InvalidApprover(_) => "Erc20InvalidApprover(address)".spec_bytes(),
            Erc20Error::Erc20InvalidReceiver(_) => "Erc20InvalidReceiver(address)".spec_bytes(),
            Erc20Error::Panic(_) => "Panic(uint256)".spec_bytes(),
        }
    }

    /// The error's fields, one 32-byte word each.
    pub open spec fn fields(self) -> Seq<u8> {
        match self {
            Erc20Error::Erc20InsufficientBalance(e) => address_word(e.sender) + amount_word(e.balance)
                + amount_word(e.needed),
            Erc20Error::Erc20InsufficientAllowance(e) => address_word(e.owner) + amount_word(e.allowance)
                + amount_word(e.needed),
            Erc20Error::Erc20InvalidSpender(e) => address_word(e.spender),
            Erc20Error::Erc20InvalidApprover(e) => address_word(e.approver),
            Erc20Error::Erc20InvalidReceiver(e) => address_word(e.receiver),
            Erc20Error::Panic(e) => amount_word(e.code),
        }
    }

    /// The payload a caller receives: selector, then fields.
    pub open spec fn payload(self) -> Seq<u8> {
        selector(self.signature()) + self.fields()
    }

    /// The error reports a result outside the 256-bit range.
    pub open spec fn is_arithmetic_overflow(self) -> bool {
        self matches Erc20Error::Panic(p) && p.code@ == 0x11
    }

    /// The error a result outside the 256-bit range is reported with.
    pub fn arithmetic_overflow() -> (r: Erc20Error)
        ensures
            r.is_arithmetic_overflow(),
    {
        Erc20Error::Panic(Panic { code: U256::from_u64(0x11) })
    }

    /// Encodes the error as its payload.
    pub fn encode(&self) -> (r: Vec<u8>)
        ensures
            r@ == self.payload(),
    {
        let mut fields: Vec<u8> = Vec::new();
        match *self {
            Erc20Error::Erc20InsufficientBalance(e) => {
                push_address(&mut fields, e.sender);
                push_amount(&mut fields, e.balance);
                push_amount(&mut fields, e.needed);
                assert(fields@ =~= self.fields());
                encode_error("Erc20InsufficientBalance(address,uint256,uint256)", fields.as_slice())
            },
            Erc20Error::Erc20InsufficientAllowance(e) => {
                push_address(&mut fields, e.owner);
                push_amount(&mut fields, e.allowance);
                push_amount(&mut fields, e.needed);
                assert(fields@ =~= self.fields());
                encode_error("Erc20InsufficientAllowance(address,uint256,uint256)", fields.as_slice())
            },
            Erc20Error::Erc20InvalidSpender(e) => {
                push_address(&mut fields, e.spender);
                encode_error("Erc20InvalidSpender(address)", fields.as_slice())
            },
            Erc20Error::Erc20InvalidApprover(e) => {
                push_address(&mut fields, e.approver);
                encode_error("Erc20InvalidApprover(address)", fields.as_slice())
            },
            Erc20Error::Erc20InvalidReceiver(e) => {
                push_address(&mut fields, e.receiver);
                encode_error("Erc20InvalidReceiver(address)", fields.as_slice())
            },
            Erc20Error::Panic(e) => {
                push_amount(&mut fields, e.code);
                encode_error("Panic(uint256)", fields.as_slice())
            },
        }
    }
}

/// What a ledger holds, as mathematical values.
pub struct LedgerState {
    pub balances: Seq<(Address, U256)>,
    pub allowances: Seq<(AllowanceKey, U256)>,
    pub total_supply: U256,
    pub events: Seq<Event>,
}

impl LedgerState {
    /// The tables have unique keys and the balances add up to the total supply.
    pub open spec fn wf(self) -> bool {
        &&& keys_unique(self.balances)
        &&& keys_unique(self.allowances)
        &&& sum(self.balances) == self.total_supply@
    }

    /// The balance of `account`; zero for an account never credited.
    pub open spec fn balance(self, account: Address) -> nat {
        lookup(self.balances, account)
    }

    /// What `spender` may still move out of `owner`'s balance.
    pub open spec fn allowance(self, owner: Address, spender: Address) -> nat {
        lookup(self.allowances, AllowanceKey { owner, spender })
    }

    /// The total supply.
    pub open spec fn supply(self) -> nat {
        self.total_supply@
    }

    /// Whether `value` can leave `from`: always for the zero address (a mint),
    /// else when it does not exceed the balance.
    pub open spec fn can_move(self, from: Address, value: nat) -> bool {
        from == zero_address() || value <= self.balance(from)
    }

    /// Whether minting `value` (a move from the zero address) would take the
    /// supply past 2^256 - 1.
    pub open spec fn mint_overflows(self, from: Address, value: nat) -> bool {
        from == zero_address() && self.supply() + value > u256_max()
    }

    /// Whether moving `value` from `from` fails: the supply would overflow, or
    /// the balance is short.
    pub open spec fn update_fails(self, from: Address, value: nat) -> bool {
        !self.can_move(from, value) || self.mint_overflows(from, value)
    }

    /// The error such a move fails with.
    pub open spec fn update_error_is(self, from: Address, value: U256, e: Erc20Error) -> bool {
        if from == zero_address() {
            e.is_arithmetic_overflow()
        } else {
            self.balance_error_is(from, value, e)
        }
    }

    /// The balance of `account` once `value` has moved from `from` to `to`.
    pub open spec fn moved_balance(self, from: Address, to: Address, value: nat, account: Address) -> int {
        self.balance(account) - (if account == from && from != zero_address() { value } else { 0 }) + (
        if account == to && to != zero_address() { value } else { 0 })
    }

    /// The supply once `value` has moved from `from` to `to`: a mint adds it, a burn takes it.
    pub open spec fn moved_supply(self, from: Address, to: Address, value: nat) -> int {
        self.supply() + (if from == zero_address() { value } else { 0 }) - (if to == zero_address() { value } else { 0 })
    }

    /// `self` is `prev` after `value` moved from `from` to `to`, with its Transfer event.
    pub open spec fn is_update_of(self, prev: LedgerState, from: Address, to: Address, value: U256) -> bool {
        &&& forall|a: Address| #[trigger] self.balance(a) == prev.moved_balance(from, to, value@, a)
        &&& self.supply() == prev.moved_supply(from, to, value@)
        &&& self.allowances == prev.allowances
        &&& self.events == prev.events.push(Event::Transfer { from, to, value })
    }

    /// What the allowance of `s` over `o`'s tokens reads once `spender` has
    /// spent `value` of `owner`'s tokens: reduced, unless it is unlimited.
    pub open spec fn spent_allowance(self, owner: Address, spender: Address, value: nat, o: Address, s: Address) -> int {
        if o == owner && s == spender && self.allowance(owner, spender) != u256_max() {
            self.allowance(o, s) - value
        } else {
            self.allowance(o, s) as int
        }
    }

    /// Whether spending `value` of `spender`'s allowance over `owner`'s tokens fails.
    pub open spec fn spend_fails(self, owner: Address, spender: Address, value: nat) -> bool {
        &&& self.allowance(owner, spender) != u256_max()
        &&& value > self.allowance(owner, spender) || owner == zero_address() || spender == zero_address()
    }

    /// The error such a spend fails with.
    pub open spec fn spend_error_is(self, owner: Address, spender: Address, value: U256, e: Erc20Error) -> bool {
        if value@ > self.allowance(owner, spender) {
            e matches Erc20Error::Erc20InsufficientAllowance(x) && x.owner == owner && x.allowance@ == self.allowance(
                owner,
                spender,
            ) && x.needed == value
        } else if owner == zero_address() {
            e == Erc20Error::Erc20InvalidApprover(Erc20InvalidApprover { approver: owner })
        } else {
            e == Erc20Error::Erc20InvalidSpender(Erc20InvalidSpender { spender })
        }
    }

    /// Whether a transfer of `value` from `from` to `to` fails.
    pub open spec fn transfer_fails(self, from: Address, to: Address, value: nat) -> bool {
        from == zero_address() || to == zero_address() || value > self.balance(from)
    }

    /// The error such a transfer fails with.
    pub open spec fn transfer_error_is(self, from: Address, to: Address, value: U256, e: Erc20Error) -> bool {
        if from == zero_address() {
            e == Erc20Error::Erc20InvalidSpender(Erc20InvalidSpender { spender: from })
        } else if to == zero_address() {
            e == Erc20Error::Erc20InvalidReceiver(Erc20InvalidReceiver { receiver: to })
        } else {
            self.balance_error_is(from, value, e)
        }
    }

    /// `e` reports that `from`'s balance is short of `value`.
    pub open spec fn balance_error_is(self, from: Address, value: U256, e: Erc20Error) -> bool {
        e matches Erc20Error::Erc20InsufficientBalance(x) && x.sender == from && x.balance@ == self.balance(from)
            && x.needed == value
    }

    /// `self` is `prev` after `spender` spent `value` of `from`'s allowance
    /// and moved it from `from` to `to`.
    pub open spec fn is_spend_and_update_of(
        self,
        prev: LedgerState,
        spender: Address,
        from: Address,
        to: Address,
        value: U256,
    ) -> bool {
        &&& forall|a: Address| #[trigger] self.balance(a) == prev.moved_balance(from, to, value@, a)
        &&& self.supply() == prev.moved_supply(from, to, value@)
        &&& forall|o: Address, s: Address| #[trigger] self.allowance(o, s) == prev.spent_allowance(
            from,
            spender,
            value@,
            o,
            s,
        )
        &&& self.events == prev.events.push(Event::Transfer { from, to, value })
    }

    /// `self` is `prev` with the allowance of `spender` over `owner`'s tokens set
    /// to `value`, and an Approval event where `emit` asks for one.
    pub open spec fn is_approval_of(
        self,
        prev: LedgerState,
        owner: Address,
        spender: Address,
        value: U256,
        emit: bool,
    ) -> bool {
        &&& self.allowance(owner, spender) == value@
        &&& forall|o: Address, s: Address|
            !(o == owner && s == spender) ==> #[trigger] self.allowance(o, s) == prev.allowance(o, s)
        &&& self.balances == prev.balances
        &&& self.total_supply == prev.total_supply
        &&& self.events == if emit {
            prev.events.push(Event::Approval { owner, spender, value })
        } else {
            prev.events
        }
    }
}

/// The ledger's state.
pub struct Erc20<T> {
    /// Token balances.
    pub balances: AmountTable<Address>,
    /// Allowances, keyed by owner and spender.
    pub allowances: AmountTable<AllowanceKey>,
    /// Total supply.
    pub total_supply: U256,
    /// Events recorded so far.
    pub events: Vec<Event>,
    /// The token's metadata.
    pub phantom: PhantomData<T>,
}

impl<T> View for Erc20<T> {
    type V = LedgerState;

    open spec fn view(&self) -> LedgerState {
        LedgerState {
            balances: self.balances@,
            allowances: self.allowances@,
            total_supply: self.total_supply,
            events: self.events@,
        }
    }
}

impl<T: Erc20Params> Erc20<T> {
    /// The token's name.
    pub fn name() -> (r: Result<String, Erc20Error>)
        ensures
            r matches Ok(n) && n@ == T::NAME@,
    {
        Ok(T::NAME.to_string())
    }

    /// The token's symbol.
    pub fn symbol() -> (r: Result<String, Erc20Error>)
        ensures
            r matches Ok(n) && n@ == T::SYMBOL@,
    {
        Ok(T::SYMBOL.to_string())
    }

    /// The token's decimals.
    pub fn decimals() -> (r: Result<u8, Erc20Error>)
        ensures
            r == Ok::<u8, Erc20Error>(T::DECIMALS),
    {
        Ok(T::DECIMALS)
    }

    /// The balance of `address`.
    pub fn balance_of(&self, address: Address) -> (r: Result<U256, Erc20Error>)
        requires
            self@.wf(),
        ensures
            r matches Ok(v) && v@ == self@.balance(address),
    {
        Ok(self.balances.get(&address))
    }

    /// What `spender` may still move out of `owner`'s balance.
    pub fn allowance(&self, owner: Address, spender: Address) -> (r: Result<U256, Erc20Error>)
        requires
            self@.wf(),
        ensures
            r matches Ok(v) && v@ == self@.allowance(owner, spender),
    {
        Ok(self.allowances.get(&AllowanceKey { owner, spender }))
    }

    /// `caller` sets the allowance of `spender` over its tokens to `value`.
    /// The largest amount makes the allowance unlimited.
    pub fn approve(&mut self, caller: Address, spender: Address, value: U256) -> (r: Result<bool, Erc20Error>)
        requires
            old(self)@.wf(),
        ensures
            final(self)@.wf(),
            caller == zero_address() ==> r == Err::<bool, Erc20Error>(
                Erc20Error::Erc20InvalidApprover(Erc20InvalidApprover { approver: caller }),
            ) && final(self)@ == old(self)@,
            caller != zero_address() && spender == zero_address() ==> r == Err::<bool, Erc20Error>(
                Erc20Error::Erc20InvalidSpender(Erc20InvalidSpender { spender }),
            ) && final(self)@ == old(self)@,
            caller != zero_address() && spender != zero_address() ==> r == Ok::<bool, Erc20Error>(true)
                && final(self)@.is_approval_of(old(self)@, caller, spender, value, true),
    {
        match self.approve_internal(caller, spender, value) {
            Ok(()) => Ok(true),
            Err(e) => Err(e),
        }
    }

    /// `caller` moves `value` of its tokens to `to`.
    pub fn transfer(&mut self, caller: Address, to: Address, value: U256) -> (r: Result<bool, Erc20Error>)
        requires
            old(self)@.wf(),
        ensures
            final(self)@.wf(),
            old(self)@.transfer_fails(caller, to, value@) ==> final(self)@ == old(self)@ && (r matches Err(e)
                && old(self)@.transfer_error_is(caller, to, value, e)),
            !old(self)@.transfer_fails(caller, to, value@) ==> r == Ok::<bool, Erc20Error>(true)
                && final(self)@.is_update_of(old(self)@, caller, to, value),
    {
        match self.transfer_internal(caller, to, value) {
            Ok(()) => Ok(true),
            Err(e) => Err(e),
        }
    }

    /// `caller` moves `value` of `from`'s tokens to `to`, spending its allowance.
    pub fn transfer_from(&mut self, caller: Address, from: Address, to: Address, value: U256) -> (r: Result<
        bool,
        Erc20Error,
    >)
        requires
            old(self)@.wf(),
        ensures
            final(self)@.wf(),
            old(self)@.spend_fails(from, caller, value@) ==> final(self)@ == old(self)@ && (r matches Err(e)
                && old(self)@.spend_error_is(from, caller, value, e)),
            !old(self)@.spend_fails(from, caller, value@) && old(self)@.transfer_fails(from, to, value@)
                ==> final(self)@ == old(self)@ && (r matches Err(e) && old(self)@.transfer_error_is(from, to, value, e)),
            !old(self)@.spend_fails(from, caller, value@) && !old(self)@.transfer_fails(from, to, value@) ==> r
                == Ok::<bool, Erc20Error>(true) && final(self)@.is_spend_and_update_of(old(self)@, caller, from, to, value),
    {
        let ghost prev = self@;
        let saved = self.snapshot();
        if let Err(e) = self.spend_allowance(from, caller, value) {
            return Err(e);
        }
        let ghost mid = self@;
        proof {
            lemma_spent(prev, mid, from, caller, value);
        }
        if let Err(e) = self.transfer_internal(from, to, value) {
            *self = saved;
            return Err(e);
        }
        proof {
            assert forall|o: Address, s: Address| #[trigger]
                self@.allowance(o, s) == prev.spent_allowance(from, caller, value@, o, s) by {
                assert(self@.allowance(o, s) == mid.allowance(o, s));
            }
            assert forall|a: Address| #[trigger]
                self@.balance(a) == prev.moved_balance(from, to, value@, a) by {
                assert(mid.balance(a) == prev.balance(a));
            }
        }
        Ok(true)
    }

    /// Moves `value` from `from` to `to`, neither of which may be the zero address.
    fn transfer_internal(&mut self, from: Address, to: Address, value: U256) -> (r: Result<(), Erc20Error>)
        requires
            old(self)@.wf(),
        ensures
            final(self)@.wf(),
            old(self)@.transfer_fails(from, to, value@) ==> final(self)@ == old(self)@ && (r matches Err(e)
                && old(self)@.transfer_error_is(from, to, value, e)),
            !old(self)@.transfer_fails(from, to, value@) ==> r is Ok && final(self)@.is_update_of(
                old(self)@,
                from,
                to,
                value,
            ),
    {
        if from.is_zero() {
            return Err(Erc20Error::Erc20InvalidSpender(Erc20InvalidSpender { spender: from }));
        }
        if to.is_zero() {
            return Err(Erc20Error::Erc20InvalidReceiver(Erc20InvalidReceiver { receiver: to }));
        }
        self.update(from, to, value)
    }

    /// An empty ledger: no balances, no allowances, no supply.
    pub fn new() -> (r: Erc20<T>)
        ensures
            r@.wf(),
            r@.supply() == 0,
            forall|a: Address| #[trigger] r@.balance(a) == 0,
            forall|o: Address, s: Address| #[trigger] r@.allowance(o, s) == 0,
            r@.events.len() == 0,
    {
        Erc20 {
            balances: AmountTable::new(),
            allowances: AmountTable::new(),
            total_supply: U256::zero(),
            events: Vec::new(),
            phantom: PhantomData,
        }
    }

    /// A copy of the ledger, to restore when a later step of a call fails.
    pub fn snapshot(&self) -> (r: Erc20<T>)
        ensures
            r@ == self@,
    {
        let mut events: Vec<Event> = Vec::new();
        let mut i: usize = 0;
        while i < self.events.len()
            invariant
                0 <= i <= self.events@.len(),
                events@ == self.events@.subrange(0, i as int),
            decreases self.events@.len() - i,
        {
            events.push(self.events[i]);
            i += 1;
        }
        assert(self.events@.subrange(0, self.events@.len() as int) =~= self.events@);
        Erc20 {
            balances: self.balances.copy(),
            allowances: self.allowances.copy(),
            total_supply: self.total_supply,
            events,
            phantom: PhantomData,
        }
    }

    /// Moves `value` from `from` to `to`. The zero address as `from` mints,
    /// as `to` burns. Records a Transfer event. A mint that would take the
    /// supply past 2^256 - 1 fails; every other move stays within the range by
    /// conservation.
    pub fn update(&mut self, from: Address, to: Address, value: U256) -> (r: Result<(), Erc20Error>)
        requires
            old(self)@.wf(),
        ensures
            final(self)@.wf(),
            r is Ok <==> !old(self)@.update_fails(from, value@),
            r is Ok ==> final(self)@.is_update_of(old(self)@, from, to, value),
            r matches Err(e) ==> final(self)@ == old(self)@ && old(self)@.update_error_is(from, value, e),
    {
        if from.is_zero() {
            match checked_add(self.total_supply, value) {
                Some(total) => {
                    self.total_supply = total;
                },
                None => {
                    return Err(Erc20Error::arithmetic_overflow());
                },
            }
        } else {
            let from_balance = self.balances.get(&from);
            if from_balance.lt(&value) {
                return Err(
                    Erc20Error::Erc20InsufficientBalance(
                        Erc20InsufficientBalance { sender: from, balance: from_balance, needed: value },
                    ),
                );
            }
            self.balances.set(from, from_balance.minus(&value));
        }
        // the value is now either in the supply or out of the balances
        assert(sum(self.balances@) + value@ == self.total_supply@);
        if to.is_zero() {
            self.total_supply = self.total_supply.minus(&value);
        } else {
            let to_balance = self.balances.get(&to);
            proof {
                lemma_lookup_le_sum(self.balances@, to);
                lemma_u256_range(self.total_supply);
            }
            self.balances.set(to, to_balance.plus(&value));
        }
        self.events.push(Event::Transfer { from, to, value });
        Ok(())
    }

    /// Creates `value` tokens for `account`. A mint that would take the supply
    /// past 2^256 - 1 fails with the arithmetic-overflow error.
    pub fn mint(&mut self, account: Address, value: U256) -> (r: Result<(), Erc20Error>)
        requires
            old(self)@.wf(),
        ensures
            final(self)@.wf(),
            account == zero_address() ==> r == Err::<(), Erc20Error>(
                Erc20Error::Erc20InvalidReceiver(Erc20InvalidReceiver { receiver: account }),
            ) && final(self)@ == old(self)@,
            account != zero_address() && old(self)@.supply() + value@ > u256_max() ==> final(self)@ == old(self)@
                && (r matches Err(e) && e.is_arithmetic_overflow()),
            account != zero_address() && old(self)@.supply() + value@ <= u256_max() ==> r is Ok && final(self)@.is_update_of(
                old(self)@,
                zero_address(),
                account,
                value,
            ),
    {
        if account.is_zero() {
            return Err(Erc20Error::Erc20InvalidReceiver(Erc20InvalidReceiver { receiver: account }));
        }
        self.update(Address::zero(), account, value)
    }

    /// Destroys `value` of `account`'s tokens.
    pub fn burn(&mut self, account: Address, value: U256) -> (r: Result<(), Erc20Error>)
        requires
            old(self)@.wf(),
        ensures
            final(self)@.wf(),
            account == zero_address() ==> r == Err::<(), Erc20Error>(
                Erc20Error::Erc20InvalidSpender(Erc20InvalidSpender { spender: account }),
            ) && final(self)@ == old(self)@,
            account != zero_address() && value@ > old(self)@.balance(account) ==> final(self)@ == old(self)@
                && (r matches Err(Erc20Error::Erc20InsufficientBalance(x)) && x.sender == account
                && x.balance@ == old(self)@.balance(account) && x.needed == value),
            account != zero_address() && value@ <= old(self)@.balance(account) ==> r is Ok
                && final(self)@.is_update_of(old(self)@, account, zero_address(), value),
    {
        if account.is_zero() {
            return Err(Erc20Error::Erc20InvalidSpender(Erc20InvalidSpender { spender: account }));
        }
        self.update(account, Address::zero(), value)
    }

    /// Sets the allowance of `spender` over `owner`'s tokens to `value`,
    /// recording an Approval event when `emit_event` is set.
    fn approve_internal_conditional(
        &mut self,
        owner: Address,
        spender: Address,
        value: U256,
        emit_event: bool,
    ) -> (r: Result<(), Erc20Error>)
        requires
            old(self)@.wf(),
        ensures
            final(self)@.wf(),
            owner == zero_address() ==> r == Err::<(), Erc20Error>(
                Erc20Error::Erc20InvalidApprover(Erc20InvalidApprover { approver: owner }),
            ) && final(self)@ == old(self)@,
            owner != zero_address() && spender == zero_address() ==> r == Err::<(), Erc20Error>(
                Erc20Error::Erc20InvalidSpender(Erc20InvalidSpender { spender }),
            ) && final(self)@ == old(self)@,
            owner != zero_address() && spender != zero_address() ==> r is Ok
                && final(self)@.is_approval_of(old(self)@, owner, spender, value, emit_event),
    {
        if owner.is_zero() {
            return Err(Erc20Error::Erc20InvalidApprover(Erc20InvalidApprover { approver: owner }));
        }
        if spender.is_zero() {
            return Err(Erc20Error::Erc20InvalidSpender(Erc20InvalidSpender { spender }));
        }
        self.allowances.set(AllowanceKey { owner, spender }, value);
        if emit_event {
            self.events.push(Event::Approval { owner, spender, value });
        }
        Ok(())
    }

    /// Sets the allowance of `spender` over `owner`'s tokens to `value`, with
    /// an Approval event.
    fn approve_internal(&mut self, owner: Address, spender: Address, value: U256) -> (r: Result<(), Erc20Error>)
        requires
            old(self)@.wf(),
        ensures
            final(self)@.wf(),
            owner == zero_address() ==> r == Err::<(), Erc20Error>(
                Erc20Error::Erc20InvalidApprover(Erc20InvalidApprover { approver: owner }),
            ) && final(self)@ == old(self)@,
            owner != zero_address() && spender == zero_address() ==> r == Err::<(), Erc20Error>(
                Erc20Error::Erc20InvalidSpender(Erc20InvalidSpender { spender }),
            ) && final(self)@ == old(self)@,
            owner != zero_address() && spender != zero_address() ==> r is Ok
                && final(self)@.is_approval_of(old(self)@, owner, spender, value, true),
    {
        self.approve_internal_conditional(owner, spender, value, true)
    }

    /// Takes `value` off the allowance of `spender` over `owner`'s tokens.
    /// The largest amount stands for an unlimited allowance and is left as it is.
    pub fn spend_allowance(&mut self, owner: Address, spender: Address, value: U256) -> (r: Result<(), Erc20Error>)
        requires
            old(self)@.wf(),
        ensures
            final(self)@.wf(),
            old(self)@.allowance(owner, spender) == u256_max() ==> r is Ok && final(self)@ == old(self)@,
            old(self)@.allowance(owner, spender) != u256_max() && value@ > old(self)@.allowance(owner, spender)
                ==> final(self)@ == old(self)@ && (r matches Err(Erc20Error::Erc20InsufficientAllowance(x))
                && x.owner == owner && x.allowance@ == old(self)@.allowance(owner, spender) && x.needed == value),
            old(self)@.allowance(owner, spender) != u256_max() && value@ <= old(self)@.allowance(owner, spender)
                ==> {
                &&& owner == zero_address() ==> r == Err::<(), Erc20Error>(
                    Erc20Error::Erc20InvalidApprover(Erc20InvalidApprover { approver: owner }),
                ) && final(self)@ == old(self)@
                &&& owner != zero_address() && spender == zero_address() ==> r == Err::<(), Erc20Error>(
                    Erc20Error::Erc20InvalidSpender(Erc20InvalidSpender { spender }),
                ) && final(self)@ == old(self)@
                &&& owner != zero_address() && spender != zero_address() ==> r is Ok && exists|left: U256|
                    left@ == old(self)@.allowance(owner, spender) - value@ && #[trigger] final(self)@.is_approval_of(
                        old(self)@,
                        owner,
                        spender,
                        left,
                        false,
                    )
            },
    {
        let current = self.allowances.get(&AllowanceKey { owner, spender });
        if !current.is_max() {
            if current.lt(&value) {
                return Err(
                    Erc20Error::Erc20InsufficientAllowance(
                        Erc20InsufficientAllowance { owner, allowance: current, needed: value },
                    ),
                );
            }
            let left = current.minus(&value);
            return self.approve_internal_conditional(owner, spender, left, false);
        }
        Ok(())
    }
}

/// After a successful spend, every allowance reads as `spent_allowance` says,
/// and nothing else has changed.
pub proof fn lemma_spent(prev: LedgerState, mid: LedgerState, owner: Address, spender: Address, value: U256)
    requires
        prev.allowance(owner, spender) == u256_max() ==> mid == prev,
        prev.allowance(owner, spender) != u256_max() ==> exists|left: U256|
            left@ == prev.allowance(owner, spender) - value@ && #[trigger] mid.is_approval_of(
                prev,
                owner,
                spender,
                left,
                false,
            ),
    ensures
        forall|o: Address, s: Address| #[trigger]
            mid.allowance(o, s) == prev.spent_allowance(owner, spender, value@, o, s),
        mid.balances == prev.balances,
        mid.total_supply == prev.total_supply,
        mid.events == prev.events,
{
    if prev.allowance(owner, spender) != u256_max() {
        let left = choose|left: U256|
            left@ == prev.allowance(owner, spender) - value@ && #[trigger] mid.is_approval_of(
                prev,
                owner,
                spender,
                left,
                false,
            );
        assert forall|o: Address, s: Address| #[trigger]
            mid.allowance(o, s) == prev.spent_allowance(owner, spender, value@, o, s) by {
            if !(o == owner && s == spender) {
                assert(mid.allowance(o, s) == prev.allowance(o, s));
            }
        }
    }
}

/// Conservation: in a well-formed ledger the total supply is the sum of the
/// balance table, whose entries are the balances of distinct accounts, and
/// every account without an entry holds nothing. So the balances of all
/// accounts add up to the total supply.
pub proof fn lemma_supply_is_sum_of_balances(s: LedgerState)
    requires
        s.wf(),
    ensures
        s.supply() == sum(s.balances),
        forall|i: int, j: int|
            0 <= i < j < s.balances.len() ==> s.balances[i].0 != s.balances[j].0,
        forall|i: int| 0 <= i < s.balances.len() ==> #[trigger] s.balance(s.balances[i].0) == s.balances[i].1@,
        forall|a: Address|
            (forall|i: int| 0 <= i < s.balances.len() ==> s.balances[i].0 != a) ==> #[trigger] s.balance(a) == 0,
{
    assert forall|i: int| 0 <= i < s.balances.len() implies #[trigger] s.balance(s.balances[i].0)
        == s.balances[i].1@ by {
        lemma_lookup_at(s.balances, i);
    }
    assert forall|a: Address|
        (forall|i: int| 0 <= i < s.balances.len() ==> s.balances[i].0 != a) implies #[trigger] s.balance(a) == 0 by {
        lemma_lookup_absent(s.balances, a);
    }
}

/// Balances and allowances are amounts in the 256-bit range, and in a
/// well-formed ledger no balance exceeds the total supply.
pub proof fn lemma_amounts_in_range(s: LedgerState, account: Address, owner: Address, spender: Address)
    ensures
        0 <= s.balance(account) <= u256_max(),
        0 <= s.allowance(owner, spender) <= u256_max(),
        s.wf() ==> s.balance(account) <= s.supply(),
{
    lemma_lookup_in_range(s.balances, account);
    lemma_lookup_in_range(s.allowances, AllowanceKey { owner, spender });
    lemma_lookup_le_sum(s.balances, account);
}

/// Approving the same amount twice leaves the allowance at that amount, and
/// the second approval changes no allowance: approval sets, it does not add.
pub proof fn lemma_approve_twice(
    s0: LedgerState,
    s1: LedgerState,
    s2: LedgerState,
    owner: Address,
    spender: Address,
    value: U256,
)
    requires
        s1.is_approval_of(s0, owner, spender, value, true),
        s2.is_approval_of(s1, owner, spender, value, true),
    ensures
        s2.allowance(owner, spender) == value@,
        forall|o: Address, s: Address| #[trigger] s2.allowance(o, s) == s1.allowance(o, s),
{
    assert forall|o: Address, s: Address| #[trigger] s2.allowance(o, s) == s1.allowance(o, s) by {
        if !(o == owner && s == spender) {
            assert(s2.allowance(o, s) == s1.allowance(o, s));
        }
    }
}

/// A mint of `value` to `account` followed by a burn of `value` from it: the
/// burn cannot fail for want of balance, and afterwards every balance and the
/// total supply are what they were before the mint.
pub proof fn lemma_mint_then_burn(
    s0: LedgerState,
    s1: LedgerState,
    s2: LedgerState,
    account: Address,
    value: U256,
)
    requires
        account != zero_address(),
        s1.is_update_of(s0, zero_address(), account, value),
    ensures
        s1.can_move(account, value@),
        s2.is_update_of(s1, account, zero_address(), value) ==> {
            &&& s2.balance(account) == s0.balance(account)
            &&& s2.supply() == s0.supply()
            &&& forall|a: Address| #[trigger] s2.balance(a) == s0.balance(a)
        },
{
    assert(s1.balance(account) == s0.balance(account) + value@);
    if s2.is_update_of(s1, account, zero_address(), value) {
        assert forall|a: Address| #[trigger] s2.balance(a) == s0.balance(a) by {
            assert(s1.balance(a) == s0.moved_balance(zero_address(), account, value@, a));
        }
    }
}

/// An unlimited allowance (the largest amount) is never used up: after
/// approving it, a transfer-from by the spender of any amount cannot fail
/// for want of allowance, and leaves the allowance unlimited.
pub proof fn lemma_unlimited_allowance(
    s0: LedgerState,
    s1: LedgerState,
    s2: LedgerState,
    owner: Address,
    spender: Address,
    to: Address,
    unlimited: U256,
    value: U256,
)
    requires
        unlimited@ == u256_max(),
        s1.is_approval_of(s0, owner, spender, unlimited, true),
    ensures
        !s1.spend_fails(owner, spender, value@),
        s2.is_spend_and_update_of(s1, spender, owner, to, value) ==> s2.allowance(owner, spender) == u256_max(),
{
}

} // verus!
