use oz_stylus_erc::address::Address;
use oz_stylus_erc::my_token::MyToken;
use oz_stylus_erc::uint::U256;

const ENFORCE_PAUSE: &str = "0xd93c0665";

fn alice() -> Address {
    Address::from_bytes([0xa1; 20])
}

fn bob() -> Address {
    Address::from_bytes([0xb0; 20])
}

fn token() -> MyToken {
    let mut t = MyToken::new();
    t.init(U256::max_value()).unwrap();
    t
}

fn selector_hex(payload: &[u8]) -> String {
    format!("0x{:02x}{:02x}{:02x}{:02x}", payload[0], payload[1], payload[2], payload[3])
}

#[test]
fn mint_revert_when_paused_works_when_unpaused_test() {
    let mut t = token();
    let amount = U256::from_u64(1000);

    t.mint(alice(), amount).unwrap();
    t.erc20_pausable.pause(alice()).unwrap();
    match t.mint(alice(), amount) {
        Ok(_) => panic!("mint tx should fail"),
        Err(p) => {
            assert!(selector_hex(&p).contains(ENFORCE_PAUSE));
        }
    }
    // leave the token active
    t.erc20_pausable.unpause(alice()).unwrap();
    t.mint(alice(), amount).unwrap();
}

#[test]
fn burn_revert_when_paused_works_when_unpaused_test() {
    let mut t = token();
    let amount = U256::from_u64(1000);
    let quarter = U256::from_u64(250);

    t.mint(alice(), amount).unwrap();
    // burning works here
    t.burn(alice(), quarter).unwrap();
    t.erc20_pausable.pause(alice()).unwrap();
    match t.burn(alice(), quarter) {
        Ok(_) => panic!("burn tx should fail"),
        Err(p) => {
            assert!(selector_hex(&p).contains(ENFORCE_PAUSE));
        }
    }
    // leave the token active
    t.erc20_pausable.unpause(alice()).unwrap();
    t.burn(alice(), quarter).unwrap();
}

#[test]
fn transfer_revert_when_paused_works_when_unpaused_test() {
    let mut t = token();
    let amount = U256::from_u64(1000);
    let quarter = U256::from_u64(250);

    t.mint(alice(), amount).unwrap();
    // transfer works here
    t.transfer(alice(), bob(), quarter).unwrap();
    t.erc20_pausable.pause(alice()).unwrap();
    match t.transfer(alice(), bob(), quarter) {
        Ok(_) => panic!("transfer tx should fail"),
        Err(p) => {
            assert!(selector_hex(&p).contains(ENFORCE_PAUSE));
        }
    }
    // leave the token active
    t.erc20_pausable.unpause(alice()).unwrap();
    t.transfer(alice(), bob(), quarter).unwrap();
}

#[test]
fn transfer_from_revert_when_paused_works_when_unpaused_test() {
    let mut t = token();
    let amount = U256::from_u64(1000);
    let quarter = U256::from_u64(250);

    t.mint(alice(), amount).unwrap();
    t.erc20.approve(alice(), alice(), amount).unwrap();
    // transfer_from works here
    t.transfer_from(alice(), alice(), bob(), quarter).unwrap();
    t.erc20_pausable.pause(alice()).unwrap();
    match t.transfer_from(alice(), alice(), bob(), quarter) {
        Ok(_) => panic!("transfer_from tx should fail"),
        Err(p) => {
            assert!(selector_hex(&p).contains(ENFORCE_PAUSE));
        }
    }
    // leave the token active
    t.erc20_pausable.unpause(alice()).unwrap();
    t.transfer_from(alice(), alice(), bob(), quarter).unwrap();
}

#[test]
fn burn_from_revert_when_paused_works_when_unpaused_test() {
    let mut t = token();
    let amount = U256::from_u64(1000);
    let quarter = U256::from_u64(250);

    t.mint(alice(), amount).unwrap();
    t.erc20.approve(alice(), alice(), amount).unwrap();
    // burn_from works here
    t.burn_from(alice(), alice(), quarter).unwrap();
    t.erc20_pausable.pause(alice()).unwrap();
    match t.burn_from(alice(), alice(), quarter) {
        Ok(_) => panic!("burn_from tx should fail"),
        Err(p) => {
            assert!(selector_hex(&p).contains(ENFORCE_PAUSE));
        }
    }
    // leave the token active
    t.erc20_pausable.unpause(alice()).unwrap();
    t.burn_from(alice(), alice(), quarter).unwrap();
}
