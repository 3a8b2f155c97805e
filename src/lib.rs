//! A fungible-token ledger with pause, cap and burn extensions, verified with Verus.
pub mod address;
pub mod uint;
pub mod table;
pub mod abi;
pub mod events;
pub mod erc20;
pub mod erc20_cap;
pub mod erc20_pausable;
pub mod erc20_burnable;
pub mod my_token;
