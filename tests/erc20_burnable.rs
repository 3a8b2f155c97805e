use oz_stylus_erc::address::Address;
use oz_stylus_erc::my_token::MyToken;
use oz_stylus_erc::uint::U256;

const INSUFFICIENT_ALLOWANCE: &str = "0xa7718e26";
const INSUFFICIENT_BALANCE: &str = "0x59eca5e6";

fn alice() -> Address {
    Address::from_bytes([0xa1; 20])
}

fn bob() -> Address {
    Address::from_bytes([0xb0; 20])
}

fn token() -> MyToken {
    let mut t = MyToken::new();
    t.init(U256::max_value()).unwrap();
    t
}

fn balance_of(t: &MyToken, a: Address) -> U256 {
    t.erc20.balance_of(a).unwrap()
}

fn selector_hex(payload: &[u8]) -> String {
    format!("0x{:02x}{:02x}{:02x}{:02x}", payload[0], payload[1], payload[2], payload[3])
}

#[test]
fn erc20_burnable_burn_test() {
    let mut t = token();
    let amount = U256::from_u64(1000);

    t.mint(alice(), amount).unwrap();
    let alice_balance_before = balance_of(&t, alice());

    t.burn(alice(), amount).unwrap();
    let alice_balance_after = balance_of(&t, alice());

    assert_eq!(alice_balance_before.wrapping_sub(&alice_balance_after), amount);
}

#[test]
fn burn_from_test() {
    let mut t = token();
    let amount = U256::from_u64(1000);

    // give bob some tokens
    t.mint(bob(), amount).unwrap();
    // bob lets alice spend them
    t.erc20.approve(bob(), alice(), amount).unwrap();

    let bob_balance_before = balance_of(&t, bob());
    // alice burns bob's tokens
    t.burn_from(alice(), bob(), amount).unwrap();
    let bob_balance_after = balance_of(&t, bob());

    assert_eq!(bob_balance_before.wrapping_sub(&bob_balance_after), amount);
}

#[test]
fn burn_balance_too_small_test() {
    let mut t = token();
    let amount = U256::from_u64(1000);

    let alice_balance = balance_of(&t, alice());
    // burn all of alice's tokens
    t.burn(alice(), alice_balance).unwrap();

    match t.burn(alice(), amount) {
        Ok(_) => panic!("burn tx should fail"),
        Err(p) => {
            assert!(selector_hex(&p).contains(INSUFFICIENT_BALANCE));
        }
    }
}

#[test]
fn burn_from_amount_bigger_than_allowance_error_test() {
    let mut t = token();
    let amount = U256::from_u64(1000);
    let amount_to_burn = amount.wrapping_add(&U256::from_u64(1));

    // give bob some tokens
    t.mint(bob(), amount).unwrap();
    // bob lets alice spend them
    t.erc20.approve(bob(), alice(), amount).unwrap();

    match t.burn_from(alice(), bob(), amount_to_burn) {
        Ok(_) => panic!("burn_from tx should fail"),
        Err(p) => {
            assert!(selector_hex(&p).contains(INSUFFICIENT_ALLOWANCE));
        }
    }
}
