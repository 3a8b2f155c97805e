use oz_stylus_erc::address::Address;
use oz_stylus_erc::my_token::MyToken;
use oz_stylus_erc::uint::U256;

const EXCEEDED_CAP: &str = "0x9e79f854";
const INVALID_CAP: &str = "0x392e1e27";
const ALREADY_INITIALIZED: &str = "0x0dc149f0";

fn alice() -> Address {
    Address::from_bytes([0xa1; 20])
}

fn selector_hex(payload: &[u8]) -> String {
    format!("0x{:02x}{:02x}{:02x}{:02x}", payload[0], payload[1], payload[2], payload[3])
}

#[test]
fn init_revert_run_more_than_once_test() {
    let mut t = MyToken::new();
    let amount = U256::from_u64(1000);

    // a first init, so that there are at least two
    let _ = t.init(amount);

    // the second init must fail
    match t.init(amount) {
        Ok(_) => panic!("init tx should fail"),
        Err(p) => {
            assert!(selector_hex(&p).contains(ALREADY_INITIALIZED));
        }
    }
}

#[test]
fn mint_revert_over_cap_test() {
    let mut t = MyToken::new();
    t.init(U256::max_value()).unwrap();
    let alice_address = alice();
    let amount = U256::from_u64(1000);

    let total_supply = t.total_supply().unwrap();
    // the cap leaves room for one mint of `amount`
    t.set_cap(total_supply.wrapping_add(&amount)).unwrap();

    // the first mint fits
    t.mint(alice_address, amount).unwrap();

    // the second would pass the cap
    match t.mint(alice_address, amount) {
        Ok(_) => panic!("mint tx should fail"),
        Err(p) => {
            assert!(selector_hex(&p).contains(EXCEEDED_CAP));
        }
    }
    // raise the cap to the largest amount again
    t.set_cap(U256::max_value()).unwrap();
}

#[test]
fn set_cap_revert_when_0_test() {
    let mut t = MyToken::new();
    t.init(U256::max_value()).unwrap();

    match t.set_cap(U256::zero()) {
        Ok(_) => panic!("set_cap tx should fail"),
        Err(p) => {
            assert!(selector_hex(&p).contains(INVALID_CAP));
        }
    }
}
