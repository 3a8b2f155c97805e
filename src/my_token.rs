//! The token: a ledger composed with the pause, cap and burn extensions.
use vstd::prelude::*;
use crate::abi::{encode_error, selector};
use crate::address::{Address, zero_address};
use crate::erc20::{Erc20, Erc20Error, Erc20InvalidReceiver, Erc20InvalidSpender, Erc20Params, LedgerState};
use crate::erc20_burnable::Erc20Burnable;
use crate::erc20_cap::{Erc20Cap, Erc20CapError, ERC20ExceededCap, ERC20InvalidCap};
use crate::erc20_pausable::{EnforcedPause, Erc20Pausable, Erc20PausableError};
use crate::events::Event;
use crate::uint::{U256, u256_max};
use vstd::string::StringSliceAdditionalSpecFns;

verus! {

/// The token's metadata.
pub struct MyTokenParams;

impl Erc20Params for MyTokenParams {
    const NAME: &'static str = "My test erc20 token";
    const SYMBOL: &'static str = "MT";
    const DECIMALS: u8 = 18;
}

/// `init` ran before.
#[derive(Clone, Copy, Debug, PartialEq)]
pub struct AlreadyInitialized {}

/// The token's own errors.
#[derive(Clone, Copy, Debug, PartialEq)]
pub enum MyTokenError {
    AlreadyInitialized(AlreadyInitialized),
}

impl MyTokenError {
    /// The canonical signature of the error, whose digest gives its selector.
    pub open spec fn signature(self) -> Seq<u8> {
        match self {
            MyTokenError::AlreadyInitialized(_) => "AlreadyInitialized()".spec_bytes(),
        }
    }

    /// The payload a caller receives: the selector alone, as there are no fields.
    pub open spec fn payload(self) -> Seq<u8> {
        selector(self.signature())
    }

    /// Encodes the error as its payload.
    pub fn encode(&self) -> (r: Vec<u8>)
        ensures
            r@ == self.payload(),
    {
        let fields: Vec<u8> = Vec::new();
        let r = match *self {
            MyTokenError::AlreadyInitialized(_) => encode_error("AlreadyInitialized()", fields.as_slice()),
        };
        assert(r@ =~= self.payload());
        r
    }
}

/// What the token holds, as mathematical values.
pub struct TokenState {
    pub initialized: bool,
    pub ledger: LedgerState,
    pub burnable: LedgerState,
    pub paused: bool,
    pub pause_events: Seq<Event>,
    pub cap: U256,
}

impl TokenState {
    /// Both ledgers are well formed.
    pub open spec fn wf(self) -> bool {
        self.ledger.wf() && self.burnable.wf()
    }

    /// The payload a paused token refuses mutations with.
    pub open spec fn paused_payload() -> Seq<u8> {
        Erc20PausableError::EnforcedPause(EnforcedPause {}).payload()
    }

    /// `self` is `prev` paused by `caller`, with its Paused event.
    pub open spec fn is_pause_of(self, prev: TokenState, caller: Address) -> bool {
        self == (TokenState {
            paused: true,
            pause_events: prev.pause_events.push(Event::Paused { account: caller }),
            ..prev
        })
    }

    /// `self` is `prev` unpaused by `caller`, with its Unpaused event.
    pub open spec fn is_unpause_of(self, prev: TokenState, caller: Address) -> bool {
        self == (TokenState {
            paused: false,
            pause_events: prev.pause_events.push(Event::Unpaused { account: caller }),
            ..prev
        })
    }

    /// `self` differs from `prev` in its ledger alone.
    pub open spec fn only_ledger_changed(self, prev: TokenState) -> bool {
        self == (TokenState { ledger: self.ledger, ..prev })
    }

    /// Whether burning `value` of `account`'s tokens fails.
    pub open spec fn burn_fails(self, account: Address, value: nat) -> bool {
        account == zero_address() || value > self.ledger.balance(account)
    }

    /// The error such a burn fails with.
    pub open spec fn burn_error_is(self, account: Address, value: U256, e: Erc20Error) -> bool {
        if account == zero_address() {
            e == Erc20Error::Erc20InvalidSpender(Erc20InvalidSpender { spender: account })
        } else {
            self.ledger.balance_error_is(account, value, e)
        }
    }
}

/// The token.
pub struct MyToken {
    /// Whether `init` ran.
    pub initialized: bool,
    /// The ledger.
    pub erc20: Erc20<MyTokenParams>,
    /// The burn extension's own ledger.
    pub erc20_burnable: Erc20Burnable,
    /// The pause switch.
    pub erc20_pausable: Erc20Pausable,
    /// The supply cap.
    pub erc20_cap: Erc20Cap,
}

impl View for MyToken {
    type V = TokenState;

    open spec fn view(&self) -> TokenState {
        TokenState {
            initialized: self.initialized,
            ledger: self.erc20@,
            burnable: self.erc20_burnable.erc20@,
            paused: self.erc20_pausable.paused,
            pause_events: self.erc20_pausable.events@,
            cap: self.erc20_cap.cap,
        }
    }
}

impl MyToken {
    /// A token before `init`: empty ledgers, active, with no cap set.
    pub fn new() -> (r: MyToken)
        ensures
            r@.wf(),
            !r@.initialized,
            !r@.paused,
            r@.cap@ == 0,
            r@.ledger.supply() == 0,
            forall|a: Address| #[trigger] r@.ledger.balance(a) == 0,
            forall|o: Address, s: Address| #[trigger] r@.ledger.allowance(o, s) == 0,
            r@.ledger.events.len() == 0,
            r@.pause_events.len() == 0,
    {
        MyToken {
            initialized: false,
            erc20: Erc20::new(),
            erc20_burnable: Erc20Burnable::new(),
            erc20_pausable: Erc20Pausable::new(),
            erc20_cap: Erc20Cap::new(),
        }
    }

    /// `caller` pauses the token: every mutation is refused until it is unpaused.
    pub fn pause(&mut self, caller: Address) -> (r: Result<(), Vec<u8>>)
        ensures
            r is Ok,
            final(self)@.is_pause_of(old(self)@, caller),
    {
        match self.erc20_pausable.pause(caller) {
            Ok(()) => Ok(()),
            Err(e) => Err(e.encode()),
        }
    }

    /// `caller` lifts the pause.
    pub fn unpause(&mut self, caller: Address) -> (r: Result<(), Vec<u8>>)
        ensures
            r is Ok,
            final(self)@.is_unpause_of(old(self)@, caller),
    {
        match self.erc20_pausable.unpause(caller) {
            Ok(()) => Ok(()),
            Err(e) => Err(e.encode()),
        }
    }

    /// The ledger's update, refused while the token is paused.
    pub fn update(&mut self, from: Address, to: Address, value: U256) -> (r: Result<(), Vec<u8>>)
        requires
            old(self)@.wf(),
        ensures
            final(self)@.wf(),
            old(self)@.paused ==> final(self)@ == old(self)@ && (r matches Err(p) && p@ == TokenState::paused_payload()),
            !old(self)@.paused && old(self)@.ledger.update_fails(from, value@) ==> final(self)@ == old(self)@ && (
            r matches Err(p) && exists|e: Erc20Error| #[trigger] e.payload() == p@
                && old(self)@.ledger.update_error_is(from, value, e)),
            !old(self)@.paused && !old(self)@.ledger.update_fails(from, value@) ==> r is Ok
                && final(self)@.only_ledger_changed(old(self)@) && final(self)@.ledger.is_update_of(
                old(self)@.ledger,
                from,
                to,
                value,
            ),
    {
        if let Err(e) = self.erc20_pausable.when_not_paused() {
            return Err(e.encode());
        }
        match self.erc20.update(from, to, value) {
            Ok(()) => Ok(()),
            Err(e) => Err(e.encode()),
        }
    }

    /// One-time setup: sets the cap.
    pub fn init(&mut self, cap: U256) -> (r: Result<(), Vec<u8>>)
        ensures
            old(self)@.initialized ==> final(self)@ == old(self)@ && (r matches Err(p) && p@
                == MyTokenError::AlreadyInitialized(AlreadyInitialized {}).payload()),
            !old(self)@.initialized && cap@ == 0 ==> final(self)@ == old(self)@ && (r matches Err(p) && p@
                == Erc20CapError::ERC20InvalidCap(ERC20InvalidCap { cap }).payload()),
            !old(self)@.initialized && cap@ != 0 ==> r is Ok && final(self)@ == (TokenState {
                initialized: true,
                cap,
                ..old(self)@
            }),
    {
        if self.initialized {
            return Err(MyTokenError::AlreadyInitialized(AlreadyInitialized {}).encode());
        }
        if let Err(e) = self.erc20_cap.set_cap(cap) {
            return Err(e.encode());
        }
        self.initialized = true;
        Ok(())
    }

    /// Sets the cap again, at any time.
    pub fn set_cap(&mut self, cap: U256) -> (r: Result<(), Vec<u8>>)
        ensures
            cap@ == 0 ==> final(self)@ == old(self)@ && (r matches Err(p) && p@ == Erc20CapError::ERC20InvalidCap(
                ERC20InvalidCap { cap },
            ).payload()),
            cap@ != 0 ==> r is Ok && final(self)@ == (TokenState { cap, ..old(self)@ }),
    {
        if let Err(e) = self.erc20_cap.set_cap(cap) {
            return Err(e.encode());
        }
        Ok(())
    }

    /// Whether the token is paused.
    pub fn is_paused(&self) -> (r: Result<bool, Erc20Error>)
        ensures
            r == Ok::<bool, Erc20Error>(self@.paused),
    {
        Ok(self.erc20_pausable.paused)
    }

    /// The supply cap.
    pub fn cap(&self) -> (r: Result<U256, Erc20Error>)
        ensures
            r == Ok::<U256, Erc20Error>(self@.cap),
    {
        Ok(self.erc20_cap.cap)
    }

    /// The total supply.
    pub fn total_supply(&self) -> (r: Result<U256, Erc20Error>)
        ensures
            r == Ok::<U256, Erc20Error>(self@.ledger.total_supply),
    {
        Ok(self.erc20.total_supply)
    }

    /// Creates `amount` tokens for `account`; anyone may mint. The cap is
    /// checked on the supply the mint reaches, and a mint above it is undone.
    /// A mint that would take the supply past 2^256 - 1 fails with the
    /// ledger's arithmetic-overflow error.
    pub fn mint(&mut self, account: Address, amount: U256) -> (r: Result<(), Vec<u8>>)
        requires
            old(self)@.wf(),
        ensures
            final(self)@.wf(),
            old(self)@.paused ==> final(self)@ == old(self)@ && (r matches Err(p) && p@ == TokenState::paused_payload()),
            !old(self)@.paused && account == zero_address() ==> final(self)@ == old(self)@ && (r matches Err(p) && p@
                == Erc20Error::Erc20InvalidReceiver(Erc20InvalidReceiver { receiver: account }).payload()),
            !old(self)@.paused && account != zero_address() && old(self)@.ledger.supply() + amount@ > u256_max()
                ==> final(self)@ == old(self)@ && (r matches Err(p) && exists|e: Erc20Error|
                #[trigger] e.payload() == p@ && e.is_arithmetic_overflow()),
            !old(self)@.paused && account != zero_address() && old(self)@.ledger.supply() + amount@ <= u256_max()
                && old(self)@.ledger.supply() + amount@ > old(self)@.cap@ ==> final(self)@ == old(self)@ && (
            r matches Err(p) && exists|s: U256|
                s@ == old(self)@.ledger.supply() + amount@ && #[trigger] Erc20CapError::ERC20ExceededCap(
                    ERC20ExceededCap { increased_supply: s, cap: old(self)@.cap },
                ).payload() == p@),
            !old(self)@.paused && account != zero_address() && old(self)@.ledger.supply() + amount@ <= old(
                self,
            )@.cap@ ==> r is Ok && final(self)@.only_ledger_changed(old(self)@) && final(self)@.ledger.is_update_of(
                old(self)@.ledger,
                zero_address(),
                account,
                amount,
            ),
    {
        proof {
            crate::uint::lemma_u256_range(self.erc20_cap.cap);
        }
        if let Err(e) = self.erc20_pausable.when_not_paused() {
            return Err(e.encode());
        }
        let saved = self.erc20.snapshot();
        if let Err(e) = self.erc20.mint(account, amount) {
            return Err(e.encode());
        }
        if let Err(e) = self.erc20_cap.when_cap_not_exceeded(self.erc20.total_supply) {
            self.erc20 = saved;
            return Err(e.encode());
        }
        Ok(())
    }

    /// `caller` moves `value` of its tokens to `to`.
    pub fn transfer(&mut self, caller: Address, to: Address, value: U256) -> (r: Result<bool, Vec<u8>>)
        requires
            old(self)@.wf(),
        ensures
            final(self)@.wf(),
            old(self)@.paused ==> final(self)@ == old(self)@ && (r matches Err(p) && p@ == TokenState::paused_payload()),
            !old(self)@.paused && old(self)@.ledger.transfer_fails(caller, to, value@) ==> final(self)@ == old(self)@
                && (r matches Err(p) && exists|e: Erc20Error| #[trigger] e.payload() == p@
                && old(self)@.ledger.transfer_error_is(caller, to, value, e)),
            !old(self)@.paused && !old(self)@.ledger.transfer_fails(caller, to, value@) ==> r == Ok::<bool, Vec<u8>>(true)
                && final(self)@.only_ledger_changed(old(self)@) && final(self)@.ledger.is_update_of(
                old(self)@.ledger,
                caller,
                to,
                value,
            ),
    {
        if let Err(e) = self.erc20_pausable.when_not_paused() {
            return Err(e.encode());
        }
        match self.transfer_internal(caller, to, value) {
            Ok(()) => Ok(true),
            Err(p) => Err(p),
        }
    }

    /// `caller` moves `value` of `from`'s tokens to `to`, spending its allowance.
    pub fn transfer_from(&mut self, caller: Address, from: Address, to: Address, value: U256) -> (r: Result<
        bool,
        Vec<u8>,
    >)
        requires
            old(self)@.wf(),
        ensures
            final(self)@.wf(),
            old(self)@.paused ==> final(self)@ == old(self)@ && (r matches Err(p) && p@ == TokenState::paused_payload()),
            !old(self)@.paused && old(self)@.ledger.spend_fails(from, caller, value@) ==> final(self)@ == old(self)@
                && (r matches Err(p) && exists|e: Erc20Error| #[trigger] e.payload() == p@
                && old(self)@.ledger.spend_error_is(from, caller, value, e)),
            !old(self)@.paused && !old(self)@.ledger.spend_fails(from, caller, value@)
                && old(self)@.ledger.transfer_fails(from, to, value@) ==> final(self)@ == old(self)@ && (r matches Err(p)
                && exists|e: Erc20Error| #[trigger] e.payload() == p@ && old(self)@.ledger.transfer_error_is(
                from,
                to,
                value,
                e,
            )),
            !old(self)@.paused && !old(self)@.ledger.spend_fails(from, caller, value@)
                && !old(self)@.ledger.transfer_fails(from, to, value@) ==> r == Ok::<bool, Vec<u8>>(true)
                && final(self)@.only_ledger_changed(old(self)@) && final(self)@.ledger.is_spend_and_update_of(
                old(self)@.ledger,
                caller,
                from,
                to,
                value,
            ),
    {
        if let Err(e) = self.erc20_pausable.when_not_paused() {
            return Err(e.encode());
        }
        let ghost prev = self@.ledger;
        let saved = self.erc20.snapshot();
        if let Err(e) = self.erc20.spend_allowance(from, caller, value) {
            return Err(e.encode());
        }
        let ghost mid = self@.ledger;
        proof {
            crate::erc20::lemma_spent(prev, mid, from, caller, value);
        }
        if let Err(p) = self.transfer_internal(from, to, value) {
            self.erc20 = saved;
            return Err(p);
        }
        proof {
            assert forall|o: Address, s: Address| #[trigger]
                self@.ledger.allowance(o, s) == prev.spent_allowance(from, caller, value@, o, s) by {
                assert(self@.ledger.allowance(o, s) == mid.allowance(o, s));
            }
            assert forall|a: Address| #[trigger]
                self@.ledger.balance(a) == prev.moved_balance(from, to, value@, a) by {
                assert(mid.balance(a) == prev.balance(a));
            }
        }
        Ok(true)
    }

    /// Moves `value` from `from` to `to`, neither of which may be the zero
    /// address, through the token's `update`.
    fn transfer_internal(&mut self, from: Address, to: Address, value: U256) -> (r: Result<(), Vec<u8>>)
        requires
            old(self)@.wf(),
            !old(self)@.paused,
        ensures
            final(self)@.wf(),
            old(self)@.ledger.transfer_fails(from, to, value@) ==> final(self)@ == old(self)@ && (r matches Err(p)
                && exists|e: Erc20Error| #[trigger] e.payload() == p@ && old(self)@.ledger.transfer_error_is(
                from,
                to,
                value,
                e,
            )),
            !old(self)@.ledger.transfer_fails(from, to, value@) ==> r is Ok && final(self)@.only_ledger_changed(
                old(self)@,
            ) && final(self)@.ledger.is_update_of(old(self)@.ledger, from, to, value),
    {
        if from.is_zero() {
            return Err(Erc20Error::Erc20InvalidSpender(Erc20InvalidSpender { spender: from }).encode());
        }
        if to.is_zero() {
            return Err(Erc20Error::Erc20InvalidReceiver(Erc20InvalidReceiver { receiver: to }).encode());
        }
        self.update(from, to, value)
    }

    /// `caller` destroys `amount` of its tokens.
    pub fn burn(&mut self, caller: Address, amount: U256) -> (r: Result<(), Vec<u8>>)
        requires
            old(self)@.wf(),
        ensures
            final(self)@.wf(),
            old(self)@.paused ==> final(self)@ == old(self)@ && (r matches Err(p) && p@ == TokenState::paused_payload()),
            !old(self)@.paused && old(self)@.burn_fails(caller, amount@) ==> final(self)@ == old(self)@ && (r matches Err(
                p,
            ) && exists|e: Erc20Error| #[trigger] e.payload() == p@ && old(self)@.burn_error_is(caller, amount, e)),
            !old(self)@.paused && !old(self)@.burn_fails(caller, amount@) ==> r is Ok && final(self)@.only_ledger_changed(
                old(self)@,
            ) && final(self)@.ledger.is_update_of(old(self)@.ledger, caller, zero_address(), amount),
    {
        if let Err(e) = self.erc20_pausable.when_not_paused() {
            return Err(e.encode());
        }
        match self.erc20.burn(caller, amount) {
            Ok(()) => Ok(()),
            Err(e) => Err(e.encode()),
        }
    }

    /// `caller` destroys `amount` of `account`'s tokens, spending its allowance.
    pub fn burn_from(&mut self, caller: Address, account: Address, amount: U256) -> (r: Result<(), Vec<u8>>)
        requires
            old(self)@.wf(),
        ensures
            final(self)@.wf(),
            old(self)@.paused ==> final(self)@ == old(self)@ && (r matches Err(p) && p@ == TokenState::paused_payload()),
            !old(self)@.paused && old(self)@.ledger.spend_fails(account, caller, amount@) ==> final(self)@ == old(
                self,
            )@ && (r matches Err(p) && exists|e: Erc20Error| #[trigger] e.payload() == p@
                && old(self)@.ledger.spend_error_is(account, caller, amount, e)),
            !old(self)@.paused && !old(self)@.ledger.spend_fails(account, caller, amount@) && old(self)@.burn_fails(
                account,
                amount@,
            ) ==> final(self)@ == old(self)@ && (r matches Err(p) && exists|e: Erc20Error| #[trigger] e.payload()
                == p@ && old(self)@.burn_error_is(account, amount, e)),
            !old(self)@.paused && !old(self)@.ledger.spend_fails(account, caller, amount@) && !old(self)@.burn_fails(
                account,
                amount@,
            ) ==> r is Ok && final(self)@.only_ledger_changed(old(self)@) && final(self)@.ledger.is_spend_and_update_of(
                old(self)@.ledger,
                caller,
                account,
                zero_address(),
                amount,
            ),
    {
        if let Err(e) = self.erc20_pausable.when_not_paused() {
            return Err(e.encode());
        }
        let ghost prev = self@.ledger;
        let saved = self.erc20.snapshot();
        if let Err(e) = self.erc20.spend_allowance(account, caller, amount) {
            return Err(e.encode());
        }
        let ghost mid = self@.ledger;
        proof {
            crate::erc20::lemma_spent(prev, mid, account, caller, amount);
        }
        if let Err(e) = self.erc20.burn(account, amount) {
            self.erc20 = saved;
            return Err(e.encode());
        }
        proof {
            assert forall|o: Address, s: Address| #[trigger]
                self@.ledger.allowance(o, s) == prev.spent_allowance(account, caller, amount@, o, s) by {
                assert(self@.ledger.allowance(o, s) == mid.allowance(o, s));
            }
            assert forall|a: Address| #[trigger]
                self@.ledger.balance(a) == prev.moved_balance(account, zero_address(), amount@, a) by {
                assert(mid.balance(a) == prev.balance(a));
            }
        }
        Ok(())
    }
}

/// A pause window changes nothing but the pause log: pause the token, make
/// any number of calls (each refused, so each leaves the token as it found
/// it, as every mutating call's contract says of a paused token), then
/// unpause. The token is then active again with the ledgers, cap and
/// initialization it had before the pause, and its log holds the two events.
pub proof fn lemma_pause_window(
    t0: TokenState,
    states: Seq<TokenState>,
    t2: TokenState,
    pauser: Address,
    unpauser: Address,
)
    requires
        !t0.paused,
        states.len() >= 1,
        states[0].is_pause_of(t0, pauser),
        forall|i: int| 0 <= i < states.len() - 1 ==> #[trigger] states[i + 1] == states[i],
        t2.is_unpause_of(states.last(), unpauser),
    ensures
        forall|i: int| 0 <= i < states.len() ==> #[trigger] states[i].paused,
        !t2.paused,
        t2.ledger == t0.ledger,
        t2.burnable == t0.burnable,
        t2.cap == t0.cap,
        t2.initialized == t0.initialized,
        t2.pause_events == t0.pause_events.push(Event::Paused { account: pauser }).push(
            Event::Unpaused { account: unpauser },
        ),
{
    lemma_states_constant(states);
}

/// A sequence of states each equal to the one before holds one state.
proof fn lemma_states_constant(states: Seq<TokenState>)
    requires
        states.len() >= 1,
        forall|i: int| 0 <= i < states.len() - 1 ==> #[trigger] states[i + 1] == states[i],
    ensures
        forall|i: int| 0 <= i < states.len() ==> #[trigger] states[i] == states[0],
    decreases states.len(),
{
    if states.len() > 1 {
        let init = states.drop_last();
        assert forall|i: int| 0 <= i < init.len() - 1 implies #[trigger] init[i + 1] == init[i] by {
            assert(states[i + 1] == states[i]);
        }
        lemma_states_constant(init);
        let k = states.len() - 2;
        assert(states[k + 1] == states[k]);
        assert forall|i: int| 0 <= i < states.len() implies #[trigger] states[i] == states[0] by {
            if i < states.len() - 1 {
                assert(init[i] == init[0]);
            } else {
                assert(init[k] == init[0]);
            }
        }
    }
}

} // verus!
