use candid::Principal;
use icrc2_ledger::account::Account;
use icrc2_ledger::account_balance::Balance as AccountBalance;
use icrc2_ledger::amount::Amount;
use icrc2_ledger::balance::Balance;
use icrc2_ledger::configuration::Configuration;
use icrc2_ledger::errors::{BalanceError, CanisterError};
use icrc2_ledger::table::Table;

#[allow(dead_code)]
fn principal(text: &str) -> Vec<u8> {
    Principal::from_text(text).unwrap().as_slice().to_vec()
}

#[allow(dead_code)]
fn time() -> u64 {
    std::time::SystemTime::now()
        .duration_since(std::time::UNIX_EPOCH)
        .unwrap()
        .as_nanos() as u64
}

#[allow(dead_code)]
fn id() -> Vec<u8> {
    principal("lj532-6iaaa-aaaah-qcc7a-cai")
}

#[allow(dead_code)]
fn caller() -> Vec<u8> {
    principal("zrrb4-gyxmq-nx67d-wmbky-k6xyt-byhmw-tr5ct-vsxu4-nuv2g-6rr65-aae")
}

#[allow(dead_code)]
fn alice() -> Vec<u8> {
    principal("be2us-64aaa-aaaaa-qaabq-cai")
}

#[allow(dead_code)]
fn alice_account() -> Account {
    Account {
        owner: alice(),
        subaccount: Some(vec![0; 32]),
    }
}

#[allow(dead_code)]
fn bob() -> Vec<u8> {
    principal("bs5l3-6b3zu-dpqyj-p2x4a-jyg4k-goneb-afof2-y5d62-skt67-3756q-dqe")
}

#[allow(dead_code)]
fn bob_account() -> Account {
    Account {
        owner: bob(),
        subaccount: Some(vec![
            0x21, 0xa9, 0x95, 0x49, 0xe7, 0x92, 0x90, 0x7c, 0x5e, 0x27, 0x5e, 0x54, 0x51, 0x06,
            0x8d, 0x4d, 0xdf, 0x4d, 0x43, 0xee, 0x8d, 0xca, 0xb4, 0x87, 0x56, 0x23, 0x1a, 0x8f,
            0xb7, 0x71, 0x31, 0x23,
        ]),
    }
}

#[allow(dead_code)]
fn minting_account() -> Account {
    Account {
        owner: id(),
        subaccount: Some(vec![
            0x21, 0xa9, 0x95, 0x49, 0xe7, 0x92, 0x90, 0x7c, 0x5e, 0x27, 0x5e, 0x54, 0x51, 0x06,
            0x8d, 0xad, 0xdf, 0x4d, 0x43, 0xee, 0x8d, 0xca, 0xb4, 0x87, 0x56, 0x23, 0x1a, 0x8f,
            0xb7, 0x71, 0x31, 0x23,
        ]),
    }
}

#[allow(dead_code)]
fn caller_account() -> Account {
    Account {
        owner: caller(),
        subaccount: Some(vec![0; 32]),
    }
}

#[allow(dead_code)]
fn canister_account() -> Account {
    Account {
        owner: id(),
        subaccount: None,
    }
}

/// Whole tokens as the smallest units, of which a token has 10^12.
#[allow(dead_code)]
fn int_to_decimals(amount: u64) -> Amount {
    Amount::from_u64(amount * 1_000_000_000_000)
}

#[allow(dead_code)]
fn amount(value: u64) -> Amount {
    Amount::from_u64(value)
}

fn default_minting_account() -> Account {
    Configuration::new().get_minting_account()
}

#[test]
fn test_should_convert_fly_to_picofly() {
    assert_eq!(int_to_decimals(1), Amount::from_u64(1_000_000_000_000_u64));
    assert_eq!(int_to_decimals(20), Amount::from_u64(20_000_000_000_000_u64));
    assert_eq!(int_to_decimals(300), Amount::from_u64(300_000_000_000_000_u64));
}

#[test]
fn test_should_init_balances() {
    let total_supply = int_to_decimals(8_888_888);

    let initial_balances = vec![
        (alice_account(), int_to_decimals(188_888)),
        (bob_account(), int_to_decimals(100_000)),
    ];

    let mut ledger = Balance::new(Table::pair().0);
    ledger.init_balances(canister_account(), total_supply, initial_balances);

    let wallet = ledger.canister_account();
    assert_eq!(wallet, canister_account());
    assert_eq!(
        ledger.balance_of(&wallet),
        int_to_decimals(8_888_888 - 188_888 - 100_000)
    );

    assert_eq!(ledger.balance_of(&alice_account()), int_to_decimals(188_888));
    assert_eq!(ledger.balance_of(&bob_account()), int_to_decimals(100_000));
}

#[test]
fn test_should_transfer_from_canister() {
    let total_supply = int_to_decimals(8_888_888);
    let recipient_account = Account {
        owner: id(),
        subaccount: Some((1..=32).collect()),
    };

    let initial_balances = vec![(recipient_account.clone(), int_to_decimals(888))];

    let mut ledger = Balance::new(Table::pair().0);
    ledger.init_balances(canister_account(), total_supply, initial_balances);

    assert_eq!(ledger.balance_of(&recipient_account), int_to_decimals(888));
}

#[test]
fn test_should_transfer_between_accounts() {
    let total_supply = int_to_decimals(8_888_888);
    let initial_balances = vec![
        (alice_account(), int_to_decimals(120)),
        (bob_account(), int_to_decimals(50)),
    ];
    let mut ledger = Balance::new(Table::pair().0);
    ledger.init_balances(canister_account(), total_supply, initial_balances);

    // transfer
    assert!(ledger
        .transfer(
            &alice_account(),
            &bob_account(),
            &int_to_decimals(50),
            &int_to_decimals(1),
            &default_minting_account(),
        )
        .is_ok());
    // verify balances
    assert_eq!(
        ledger.balance_of(&alice_account()),
        int_to_decimals(120 - 50 - 1)
    );
    assert_eq!(ledger.balance_of(&bob_account()), int_to_decimals(100));
    // fee should be burned
    assert_eq!(
        ledger.total_supply(&default_minting_account()),
        int_to_decimals(8_888_888 - 1)
    );
}

#[test]
fn test_should_fail_transfer_if_has_no_balance_to_pay_fee() {
    let total_supply = int_to_decimals(8_888_888);
    let initial_balances = vec![
        (alice_account(), int_to_decimals(50)),
        (bob_account(), int_to_decimals(50)),
    ];
    let mut ledger = Balance::new(Table::pair().0);
    ledger.init_balances(canister_account(), total_supply, initial_balances);

    // transfer
    assert!(ledger
        .transfer(
            &alice_account(),
            &bob_account(),
            &int_to_decimals(50),
            &int_to_decimals(1),
            &default_minting_account(),
        )
        .is_err());
}

#[test]
fn test_should_not_pay_fee_if_fee_is_zero() {
    let total_supply = int_to_decimals(8_888_888);
    let initial_balances = vec![
        (alice_account(), int_to_decimals(50)),
        (bob_account(), int_to_decimals(50)),
    ];
    let mut ledger = Balance::new(Table::pair().0);
    ledger.init_balances(canister_account(), total_supply, initial_balances);

    // transfer
    assert!(ledger
        .transfer(
            &alice_account(),
            &bob_account(),
            &int_to_decimals(50),
            &int_to_decimals(0),
            &default_minting_account(),
        )
        .is_ok());
    // verify balances
    assert_eq!(ledger.balance_of(&alice_account()), int_to_decimals(0));
    assert_eq!(ledger.balance_of(&bob_account()), int_to_decimals(100));
    // fee should be burned
    assert_eq!(
        ledger.total_supply(&default_minting_account()),
        int_to_decimals(8_888_888)
    );
}

#[test]
fn test_should_not_allow_transfer_if_not_enough_balance() {
    let total_supply = int_to_decimals(8_888_888);
    let initial_balances = vec![
        (alice_account(), int_to_decimals(50)),
        (bob_account(), int_to_decimals(50)),
    ];
    let mut ledger = Balance::new(Table::pair().0);
    ledger.init_balances(canister_account(), total_supply, initial_balances);

    // transfer
    assert!(ledger
        .transfer(
            &alice_account(),
            &bob_account(),
            &int_to_decimals(100),
            &int_to_decimals(1),
            &default_minting_account(),
        )
        .is_err());
}

#[test]
fn balance_test_should_get_total_supply() {
    let total_supply = int_to_decimals(8_888_888);
    let initial_balances = vec![(bob_account(), int_to_decimals(100_000))];
    let mut ledger = Balance::new(Table::pair().0);
    ledger.init_balances(canister_account(), total_supply, initial_balances);
    assert_eq!(
        ledger.total_supply(&default_minting_account()),
        int_to_decimals(8_888_888)
    );

    // burn
    assert!(ledger
        .transfer_wno_fees(
            &bob_account(),
            &default_minting_account(),
            &int_to_decimals(100_000)
        )
        .is_ok());
    assert_eq!(
        ledger.total_supply(&default_minting_account()),
        int_to_decimals(8_888_888 - 100_000)
    );
}

#[test]
fn test_should_encode_and_decode_balance() {
    let balance = AccountBalance {
        amount: int_to_decimals(8_888_888),
    };

    let encoded = balance.to_bytes();
    let decoded = AccountBalance::from_bytes(&encoded).unwrap();

    assert_eq!(balance, decoded);
}

#[test]
fn balance_bytes_are_length_then_big_endian_magnitude() {
    let balance = AccountBalance::from(amount(0x0102_03));
    assert_eq!(balance.to_bytes(), vec![3, 1, 2, 3]);
    let zero = AccountBalance::from(amount(0));
    assert_eq!(zero.to_bytes(), vec![1, 0]);
    assert_eq!(AccountBalance::from_bytes(&[1, 0]).unwrap(), zero);
    // leading zero bytes are dropped when reading
    assert_eq!(
        AccountBalance::from_bytes(&[3, 0, 0, 7]).unwrap().amount,
        amount(7)
    );
    // a record that ends before its chunk does holds nothing
    assert!(AccountBalance::from_bytes(&[]).is_none());
    assert!(AccountBalance::from_bytes(&[2, 1]).is_none());
}

#[test]
fn insufficient_transfer_changes_no_balance() {
    let mut ledger = Balance::new(Table::pair().0);
    ledger.init_balances(
        canister_account(),
        amount(1_000),
        vec![(alice_account(), amount(100)), (bob_account(), amount(10))],
    );
    let minting = minting_account();
    let r = ledger.transfer(&alice_account(), &bob_account(), &amount(95), &amount(6), &minting);
    assert_eq!(
        r,
        Err(CanisterError::Balance(BalanceError::InsufficientBalance))
    );
    assert_eq!(ledger.balance_of(&alice_account()), amount(100));
    assert_eq!(ledger.balance_of(&bob_account()), amount(10));
    assert_eq!(ledger.balance_of(&minting), amount(0));
    assert_eq!(ledger.total_supply(&minting), amount(1_000));
}

#[test]
fn transfer_moves_amount_and_fee_exactly() {
    let mut ledger = Balance::new(Table::pair().0);
    ledger.init_balances(
        canister_account(),
        amount(1_000),
        vec![(alice_account(), amount(100)), (bob_account(), amount(10))],
    );
    let minting = minting_account();
    let r = ledger.transfer(&alice_account(), &bob_account(), &amount(94), &amount(6), &minting);
    assert_eq!(r, Ok(()));
    assert_eq!(ledger.balance_of(&alice_account()), amount(0));
    assert_eq!(ledger.balance_of(&bob_account()), amount(104));
    assert_eq!(ledger.balance_of(&minting), amount(6));
    assert_eq!(ledger.balance_of(&canister_account()), amount(890));
    assert_eq!(ledger.total_supply(&minting), amount(994));
}

#[test]
fn transfers_in_a_row_conserve_supply_plus_fees() {
    let mut ledger = Balance::new(Table::pair().0);
    ledger.init_balances(
        canister_account(),
        amount(10_000),
        vec![(alice_account(), amount(500)), (bob_account(), amount(300))],
    );
    let minting = minting_account();
    let before = ledger.total_supply(&minting);
    let mut fees: u64 = 0;
    let steps: Vec<(Account, Account, u64, u64)> = vec![
        (alice_account(), bob_account(), 100, 3),
        (bob_account(), caller_account(), 350, 5),
        (caller_account(), alice_account(), 1_000, 1),
        (caller_account(), alice_account(), 349, 1),
        (alice_account(), alice_account(), 10, 2),
    ];
    for (from, to, value, fee) in steps {
        if ledger
            .transfer(&from, &to, &amount(value), &amount(fee), &minting)
            .is_ok()
        {
            fees += fee;
        }
    }
    assert_eq!(fees, 3 + 5 + 1 + 2);
    assert_eq!(ledger.balance_of(&minting), amount(fees));
    assert_eq!(
        ledger.total_supply(&minting).plus(&amount(fees)),
        before
    );
}

#[test]
fn balance_of_unseen_account_is_zero_and_stores_nothing() {
    let mut ledger = Balance::new(Table::pair().0);
    ledger.init_balances(canister_account(), amount(50), vec![]);
    assert_eq!(ledger.balance_of(&alice_account()), amount(0));
    assert_eq!(ledger.total_supply(&minting_account()), amount(50));
    // a failed move out of an unseen account leaves a zero record and no more
    assert!(ledger
        .transfer_wno_fees(&alice_account(), &bob_account(), &amount(1))
        .is_err());
    assert_eq!(ledger.balance_of(&alice_account()), amount(0));
    assert_eq!(ledger.balance_of(&bob_account()), amount(0));
}

#[test]
fn later_grant_to_the_same_account_replaces_the_earlier() {
    let mut ledger = Balance::new(Table::pair().0);
    ledger.init_balances(
        canister_account(),
        amount(100),
        vec![(alice_account(), amount(10)), (alice_account(), amount(30))],
    );
    assert_eq!(ledger.balance_of(&alice_account()), amount(30));
    assert_eq!(ledger.balance_of(&canister_account()), amount(60));
}

#[test]
fn amounts_beyond_sixty_four_bits() {
    let big = Amount::from_be_bytes(&[1, 0, 0, 0, 0, 0, 0, 0, 0]);
    let max = Amount::from_u64(u64::MAX);
    assert_eq!(max.plus(&amount(1)), big);
    assert_eq!(big.minus(&amount(1)), max);
    assert!(max.less_than(&big));
    assert!(!big.less_than(&max));
    assert!(big.same(&Amount::from_be_bytes(&[0, 0, 1, 0, 0, 0, 0, 0, 0, 0, 0])));
    assert_eq!(amount(0).bytes, vec![0]);
    assert_eq!(amount(1125).bytes, vec![4, 101]);
    assert_eq!(Amount::from_be_bytes(&[]).bytes, vec![0]);
    assert!(amount(0).is_zero());
    assert!(!amount(256).is_zero());
    // numbers are ordered by value, not as strings of bytes: [2] comes before [1, 0]
    assert!(amount(2).less_than(&amount(256)));
}
