use oz_stylus_erc::address::Address;
use oz_stylus_erc::erc20::{Erc20, Erc20Params};
use oz_stylus_erc::my_token::{MyToken, MyTokenParams};
use oz_stylus_erc::uint::U256;

const INVALID_SPENDER: &str = "0xf886f534";
const INVALID_RECEIVER: &str = "0x5d908336";
const INSUFFICIENT_ALLOWANCE: &str = "0xa7718e26";
const INSUFFICIENT_BALANCE: &str = "0x59eca5e6";

fn alice() -> Address {
    Address::from_bytes([0xa1; 20])
}

fn bob() -> Address {
    Address::from_bytes([0xb0; 20])
}

fn amount(v: u64) -> U256 {
    U256::from_u64(v)
}

fn token() -> MyToken {
    let mut t = MyToken::new();
    t.init(U256::max_value()).unwrap();
    t
}

fn balance_of(t: &MyToken, a: Address) -> U256 {
    t.erc20.balance_of(a).unwrap()
}

fn minus(a: U256, b: U256) -> U256 {
    a.wrapping_sub(&b)
}

fn selector_hex(payload: &[u8]) -> String {
    format!("0x{:02x}{:02x}{:02x}{:02x}", payload[0], payload[1], payload[2], payload[3])
}

#[test]
fn erc20_params() {
    let token_name = Erc20::<MyTokenParams>::name().unwrap();
    let token_symbol = Erc20::<MyTokenParams>::symbol().unwrap();
    let token_decimals = Erc20::<MyTokenParams>::decimals().unwrap();

    assert_eq!(token_name, MyTokenParams::NAME);
    assert_eq!(token_symbol, MyTokenParams::SYMBOL);
    assert_eq!(token_decimals, MyTokenParams::DECIMALS);
}

#[test]
fn mint_test() {
    let mut t = token();
    let amount = amount(1000);

    let alice_balance_before = balance_of(&t, alice());
    t.mint(alice(), amount).unwrap();
    let alice_balance_after = balance_of(&t, alice());

    assert_eq!(minus(alice_balance_after, alice_balance_before), amount);
}

#[test]
fn erc20_base_burn_test() {
    let mut t = token();
    let amount = amount(1000);

    t.mint(alice(), amount).unwrap();
    let alice_balance_before = balance_of(&t, alice());
    println!("alice_balance_before: {:?}", alice_balance_before);

    t.burn(alice(), amount).unwrap();
    let alice_balance_after = balance_of(&t, alice());
    println!("alice_balance_after: {:?}", alice_balance_after);

    assert_eq!(minus(alice_balance_before, alice_balance_after), amount);
}

#[test]
fn transfer_test() {
    let mut t = token();
    let amount_mint = amount(1000);
    let amount_transfer = amount(100);

    t.mint(alice(), amount_mint).unwrap();
    let alice_balance_before = balance_of(&t, alice());
    let bob_balance_before = balance_of(&t, bob());

    // from alice to bob
    t.transfer(alice(), bob(), amount_transfer).unwrap();

    let alice_balance_after = balance_of(&t, alice());
    let bob_balance_after = balance_of(&t, bob());

    assert_eq!(minus(alice_balance_before, alice_balance_after), amount_transfer);
    assert_eq!(minus(bob_balance_after, bob_balance_before), amount_transfer);
}

#[test]
fn transfer_from_test() {
    let mut t = token();
    let amount_mint = amount(1000);
    let amount_transfer = amount(100);

    // give bob some tokens
    t.mint(bob(), amount_mint).unwrap();
    // bob lets alice spend his tokens
    t.erc20.approve(bob(), alice(), amount_transfer).unwrap();

    let alice_balance_before = balance_of(&t, alice());
    let bob_balance_before = balance_of(&t, bob());

    // alice moves bob's tokens to herself
    t.transfer_from(alice(), bob(), alice(), amount_transfer).unwrap();

    let alice_balance_after = balance_of(&t, alice());
    let bob_balance_after = balance_of(&t, bob());

    assert_eq!(minus(alice_balance_after, alice_balance_before), amount_transfer);
    assert_eq!(minus(bob_balance_before, bob_balance_after), amount_transfer);
}

#[test]
fn approve_test() {
    let mut t = token();
    let amount = amount(100);

    t.erc20.approve(alice(), bob(), U256::zero()).unwrap();
    let allowance_before = t.erc20.allowance(alice(), bob()).unwrap();

    t.erc20.approve(alice(), bob(), amount).unwrap();
    let allowance_after = t.erc20.allowance(alice(), bob()).unwrap();

    assert_eq!(allowance_before, U256::zero());
    assert_eq!(allowance_after, amount);
}

#[test]
fn approve_account_address_0_error_test() {
    let mut t = token();
    let amount = amount(100);

    match t.erc20.approve(alice(), Address::zero(), amount) {
        Ok(_) => panic!("approve tx should fail"),
        Err(e) => {
            assert!(selector_hex(&e.encode()).contains(INVALID_SPENDER));
        }
    }
}

#[test]
fn transfer_balance_too_small_error_test() {
    let mut t = token();
    let amount_mint = amount(1000);
    let amount_transfer = amount_mint.wrapping_add(&amount_mint);

    let alice_balance = balance_of(&t, alice());
    // burn all of alice's tokens
    t.burn(alice(), alice_balance).unwrap();
    // from alice to bob
    match t.transfer(alice(), bob(), amount_transfer) {
        Ok(_) => panic!("transfer tx should fail"),
        Err(p) => {
            assert!(selector_hex(&p).contains(INSUFFICIENT_BALANCE));
        }
    }
}

#[test]
fn transfer_receiver_address_0_error_test() {
    let mut t = token();

    t.mint(alice(), amount(1000)).unwrap();
    match t.transfer(alice(), Address::zero(), amount(100)) {
        Ok(_) => panic!("transfer tx should fail"),
        Err(p) => {
            assert!(selector_hex(&p).contains(INVALID_RECEIVER));
        }
    }
}

#[test]
fn transfer_from_amount_bigger_than_allowance_error_test() {
    let mut t = token();
    let amount_allowance = amount(100);
    let amount_transfer = amount_allowance.wrapping_add(&amount_allowance);

    // give bob some tokens
    t.mint(bob(), amount(1000)).unwrap();
    // bob lets alice spend some of them
    t.erc20.approve(bob(), alice(), amount_allowance).unwrap();

    // alice asks for twice the allowance
    match t.transfer_from(alice(), bob(), alice(), amount_transfer) {
        Ok(_) => panic!("transfer from tx should fail"),
        Err(p) => {
            assert!(selector_hex(&p).contains(INSUFFICIENT_ALLOWANCE));
        }
    }
}
