//! The pause switch: while paused, the token refuses every mutation.
use vstd::prelude::*;
use crate::abi::{encode_error, selector};
use crate::address::Address;
use crate::events::Event;
use vstd::string::StringSliceAdditionalSpecFns;

verus! {

/// The operation failed because the token is paused.
#[derive(Clone, Copy, Debug, PartialEq)]
pub struct EnforcedPause {}

/// The operation failed because the token is not paused.
#[derive(Clone, Copy, Debug, PartialEq)]
pub struct ExpectedPause {}

/// The pause policy's errors.
#[derive(Clone, Copy, Debug, PartialEq)]
pub enum Erc20PausableError {
    EnforcedPause(EnforcedPause),
    ExpectedPause(ExpectedPause),
}

impl Erc20PausableError {
    /// The canonical signature of the error, whose digest gives its selector.
    pub open spec fn signature(self) -> Seq<u8> {
        match self {
            Erc20PausableError::EnforcedPause(_) => "EnforcedPause()".spec_bytes(),
            Erc20PausableError::ExpectedPause(_) => "ExpectedPause()".spec_bytes(),
        }
    }

    /// The payload a caller receives: the selector alone, as there are no fields.
    pub open spec fn payload(self) -> Seq<u8> {
        selector(self.signature())
    }

    /// Encodes the error as its payload.
    pub fn encode(&self) -> (r: Vec<u8>)
        ensures
            r@ == self.payload(),
    {
        let fields: Vec<u8> = Vec::new();
        let r = match *self {
            Erc20PausableError::EnforcedPause(_) => encode_error("EnforcedPause()", fields.as_slice()),
            Erc20PausableError::ExpectedPause(_) => encode_error("ExpectedPause()", fields.as_slice()),
        };
        assert(r@ =~= self.payload());
        r
    }
}

/// The pause policy's state.
pub struct Erc20Pausable {
    /// Whether the token is paused.
    pub paused: bool,
    /// Pause and unpause events, in order.
    pub events: Vec<Event>,
}

impl Erc20Pausable {
    /// An active (unpaused) policy.
    pub fn new() -> (r: Erc20Pausable)
        ensures
            !r.paused,
            r.events@.len() == 0,
    {
        Erc20Pausable { paused: false, events: Vec::new() }
    }

    /// Fails while the token is paused.
    pub fn when_not_paused(&self) -> (r: Result<(), Erc20PausableError>)
        ensures
            self.paused ==> r == Err::<(), Erc20PausableError>(Erc20PausableError::EnforcedPause(EnforcedPause {})),
            !self.paused ==> r is Ok,
    {
        if self.paused {
            return Err(Erc20PausableError::EnforcedPause(EnforcedPause {}));
        }
        Ok(())
    }

    /// Fails while the token is not paused.
    pub fn when_paused(&self) -> (r: Result<(), Erc20PausableError>)
        ensures
            !self.paused ==> r == Err::<(), Erc20PausableError>(Erc20PausableError::ExpectedPause(ExpectedPause {})),
            self.paused ==> r is Ok,
    {
        if !self.paused {
            return Err(Erc20PausableError::ExpectedPause(ExpectedPause {}));
        }
        Ok(())
    }

    /// `caller` pauses the token. Pausing a paused token succeeds and leaves it paused.
    pub fn pause(&mut self, caller: Address) -> (r: Result<(), Erc20PausableError>)
        ensures
            r is Ok,
            final(self).paused,
            final(self).events@ == old(self).events@.push(Event::Paused { account: caller }),
    {
        self.paused = true;
        self.events.push(Event::Paused { account: caller });
        Ok(())
    }

    /// `caller` lifts the pause. Unpausing an active token succeeds and leaves it active.
    pub fn unpause(&mut self, caller: Address) -> (r: Result<(), Erc20PausableError>)
        ensures
            r is Ok,
            !final(self).paused,
            final(self).events@ == old(self).events@.push(Event::Unpaused { account: caller }),
    {
        self.paused = false;
        self.events.push(Event::Unpaused { account: caller });
        Ok(())
    }
}

} // verus!
