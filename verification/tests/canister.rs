use candid::Principal;
use icrc2_ledger::account::Account;
use icrc2_ledger::amount::Amount;
use icrc2_ledger::canister::{Icrc2Canister, InitArgs, MetadataValue};
use icrc2_ledger::requests::{
    Allowance, AllowanceArgs, ApproveArgs, ApproveError, TransferArg, TransferError,
    TransferFromArgs, TransferFromError,
};
use icrc2_ledger::TokenExtension;

#[allow(dead_code)]
fn principal(text: &str) -> Vec<u8> {
    Principal::from_text(text).unwrap().as_slice().to_vec()
}

#[allow(dead_code)]
fn time() -> u64 {
    std::time::SystemTime::now()
        .duration_since(std::time::UNIX_EPOCH)
        .unwrap()
        .as_nanos() as u64
}

#[allow(dead_code)]
fn id() -> Vec<u8> {
    principal("lj532-6iaaa-aaaah-qcc7a-cai")
}

#[allow(dead_code)]
fn caller() -> Vec<u8> {
    principal("zrrb4-gyxmq-nx67d-wmbky-k6xyt-byhmw-tr5ct-vsxu4-nuv2g-6rr65-aae")
}

#[allow(dead_code)]
fn alice() -> Vec<u8> {
    principal("be2us-64aaa-aaaaa-qaabq-cai")
}

#[allow(dead_code)]
fn alice_account() -> Account {
    Account {
        owner: alice(),
        subaccount: Some(vec![0; 32]),
    }
}

#[allow(dead_code)]
fn bob() -> Vec<u8> {
    principal("bs5l3-6b3zu-dpqyj-p2x4a-jyg4k-goneb-afof2-y5d62-skt67-3756q-dqe")
}

#[allow(dead_code)]
fn bob_account() -> Account {
    Account {
        owner: bob(),
        subaccount: Some(vec![
            0x21, 0xa9, 0x95, 0x49, 0xe7, 0x92, 0x90, 0x7c, 0x5e, 0x27, 0x5e, 0x54, 0x51, 0x06,
            0x8d, 0x4d, 0xdf, 0x4d, 0x43, 0xee, 0x8d, 0xca, 0xb4, 0x87, 0x56, 0x23, 0x1a, 0x8f,
            0xb7, 0x71, 0x31, 0x23,
        ]),
    }
}

#[allow(dead_code)]
fn minting_account() -> Account {
    Account {
        owner: id(),
        subaccount: Some(vec![
            0x21, 0xa9, 0x95, 0x49, 0xe7, 0x92, 0x90, 0x7c, 0x5e, 0x27, 0x5e, 0x54, 0x51, 0x06,
            0x8d, 0xad, 0xdf, 0x4d, 0x43, 0xee, 0x8d, 0xca, 0xb4, 0x87, 0x56, 0x23, 0x1a, 0x8f,
            0xb7, 0x71, 0x31, 0x23,
        ]),
    }
}

#[allow(dead_code)]
fn caller_account() -> Account {
    Account {
        owner: caller(),
        subaccount: Some(vec![0; 32]),
    }
}

#[allow(dead_code)]
fn canister_account() -> Account {
    Account {
        owner: id(),
        subaccount: None,
    }
}

/// Whole tokens as the smallest units, of which a token has 10^12.
#[allow(dead_code)]
fn int_to_decimals(amount: u64) -> Amount {
    Amount::from_u64(amount * 1_000_000_000_000)
}

#[allow(dead_code)]
fn amount(value: u64) -> Amount {
    Amount::from_u64(value)
}

const ICRC1_NAME: &str = "dummy";
/// Token symbol
const ICRC1_SYMBOL: &str = "DUM";
/// pico fly
const ICRC1_DECIMALS: u8 = 12;
/// Default transfer fee (10.000 picofly)
const ICRC1_FEE: u64 = 10_000;
/// Logo
const ICRC1_LOGO: &str = "";
/// The ledger refuses transfers created longer ago or further ahead, in nanoseconds
const ICRC1_TX_TIME_SKID: u64 = 300_000_000_000;

fn init_canister() -> Icrc2Canister {
    let data = InitArgs {
        accounts: vec![
            (alice_account(), int_to_decimals(50_000)),
            (bob_account(), int_to_decimals(50_000)),
            (caller_account(), int_to_decimals(100_000)),
        ],
        symbol: ICRC1_SYMBOL.to_string(),
        name: ICRC1_NAME.to_string(),
        decimals: ICRC1_DECIMALS,
        fee: ICRC1_FEE,
        logo: ICRC1_LOGO.to_string(),
        total_supply: int_to_decimals(8_888_888),
        minting_account: minting_account(),
    };
    Icrc2Canister::init(data, canister_account())
}

fn transfer_to_bob(fee: Option<Amount>, created_at_time: Option<u64>, memo: Option<Vec<u8>>) -> TransferArg {
    TransferArg {
        from_subaccount: caller_account().subaccount,
        to: bob_account(),
        amount: int_to_decimals(10_000),
        fee,
        created_at_time,
        memo,
    }
}

#[test]
fn canister_starts_empty_with_default_settings() {
    let canister = Icrc2Canister::new();
    assert_eq!(canister.icrc1_name(), "ICRC-2");
    assert_eq!(canister.icrc1_symbol(), "ICRC");
    assert_eq!(canister.icrc1_decimals(), 8);
    assert_eq!(canister.icrc1_fee(), amount(0));
    assert_eq!(canister.icrc1_total_supply(), amount(0));
    assert_eq!(canister.icrc1_balance_of(&alice_account()), amount(0));
    assert_eq!(canister.allowances.len(), 0);
    assert_eq!(
        canister.icrc1_minting_account(),
        Account {
            owner: Principal::anonymous().as_slice().to_vec(),
            subaccount: None
        }
    );
}

#[test]
fn test_should_init_canister() {
    let canister = init_canister();

    // init balance
    assert_eq!(
        canister.balances.balance_of(&alice_account()),
        int_to_decimals(50_000)
    );
    assert_eq!(
        canister.balances.balance_of(&bob_account()),
        int_to_decimals(50_000)
    );
    assert_eq!(
        canister.balances.balance_of(&caller_account()),
        int_to_decimals(100_000)
    );
}

#[test]
fn test_should_get_name() {
    let canister = init_canister();
    assert_eq!(canister.icrc1_name(), ICRC1_NAME);
}

#[test]
fn test_should_get_symbol() {
    let canister = init_canister();
    assert_eq!(canister.icrc1_symbol(), ICRC1_SYMBOL);
}

#[test]
fn test_should_get_decimals() {
    let canister = init_canister();
    assert_eq!(canister.icrc1_decimals(), ICRC1_DECIMALS);
}

#[test]
fn test_should_get_fee() {
    let canister = init_canister();
    assert_eq!(canister.icrc1_fee(), amount(ICRC1_FEE));
}

#[test]
fn test_should_get_metadata() {
    let canister = init_canister();
    let metadata = canister.icrc1_metadata();
    assert_eq!(metadata.len(), 5);
    assert_eq!(
        metadata.first().unwrap(),
        &(
            "icrc1:symbol".to_string(),
            MetadataValue::Text(ICRC1_SYMBOL.to_string())
        )
    );
    assert_eq!(
        metadata.get(1).unwrap(),
        &(
            "icrc1:name".to_string(),
            MetadataValue::Text(ICRC1_NAME.to_string())
        )
    );
    assert_eq!(
        metadata.get(2).unwrap(),
        &(
            "icrc1:decimals".to_string(),
            MetadataValue::Nat(amount(ICRC1_DECIMALS as u64))
        )
    );
    assert_eq!(
        metadata.get(3).unwrap(),
        &(
            "icrc1:fee".to_string(),
            MetadataValue::Nat(amount(ICRC1_FEE))
        )
    );
    assert_eq!(
        metadata.get(4).unwrap(),
        &(
            "icrc1:logo".to_string(),
            MetadataValue::Text(ICRC1_LOGO.to_string())
        )
    );
}

#[test]
fn app_test_should_get_total_supply() {
    let canister = init_canister();
    assert_eq!(canister.icrc1_total_supply(), int_to_decimals(8_888_888));
}

#[test]
fn test_should_get_minting_account() {
    let canister = init_canister();
    assert_eq!(
        canister.icrc1_minting_account(),
        canister.configuration.get_minting_account()
    );
    assert_eq!(canister.icrc1_minting_account(), minting_account());
}

#[test]
fn test_should_get_balance_of() {
    let canister = init_canister();
    assert_eq!(
        canister.icrc1_balance_of(&alice_account()),
        int_to_decimals(50_000)
    );
    assert_eq!(
        canister.icrc1_balance_of(&bob_account()),
        int_to_decimals(50_000)
    );
    assert_eq!(
        canister.icrc1_balance_of(&caller_account()),
        int_to_decimals(100_000)
    );
    assert_eq!(
        canister.icrc1_balance_of(&Account {
            owner: id(),
            subaccount: Some((101..=132).collect()),
        }),
        amount(0)
    );
}

#[test]
fn test_should_transfer() {
    let mut canister = init_canister();
    let transfer_args = transfer_to_bob(Some(amount(ICRC1_FEE)), Some(time()), None);
    assert!(canister
        .icrc1_transfer(&caller(), transfer_args, time())
        .is_ok());
    assert_eq!(
        canister.icrc1_balance_of(&caller_account()),
        int_to_decimals(90_000).minus(&amount(ICRC1_FEE))
    );
    assert_eq!(
        canister.icrc1_balance_of(&bob_account()),
        int_to_decimals(60_000)
    );
}

#[test]
fn test_should_not_transfer_with_bad_time() {
    let mut canister = init_canister();
    let transfer_args = transfer_to_bob(Some(amount(ICRC1_FEE)), Some(0), None);
    assert!(matches!(
        canister
            .icrc1_transfer(&caller(), transfer_args, time())
            .unwrap_err(),
        TransferError::TooOld { .. }
    ));
}

#[test]
fn test_should_not_transfer_with_old_time() {
    let mut canister = init_canister();
    let transfer_args = transfer_to_bob(
        Some(amount(ICRC1_FEE)),
        Some(time() - (ICRC1_TX_TIME_SKID * 2)),
        None,
    );
    assert!(matches!(
        canister
            .icrc1_transfer(&caller(), transfer_args, time())
            .unwrap_err(),
        TransferError::TooOld { .. }
    ));
}

#[test]
fn test_should_not_transfer_with_time_in_future() {
    let mut canister = init_canister();
    let transfer_args = transfer_to_bob(
        Some(amount(ICRC1_FEE)),
        Some(time() + (ICRC1_TX_TIME_SKID * 2)),
        None,
    );
    assert!(matches!(
        canister
            .icrc1_transfer(&caller(), transfer_args, time())
            .unwrap_err(),
        TransferError::CreatedInFuture { .. }
    ));
}

#[test]
fn test_should_not_transfer_with_bad_fee() {
    let mut canister = init_canister();
    let transfer_args = transfer_to_bob(Some(amount(ICRC1_FEE / 2)), Some(time()), None);

    assert!(matches!(
        canister
            .icrc1_transfer(&caller(), transfer_args, time())
            .unwrap_err(),
        TransferError::BadFee { .. }
    ));
}

#[test]
fn test_should_transfer_with_null_fee() {
    let mut canister = init_canister();
    let transfer_args = transfer_to_bob(None, Some(time()), None);
    assert!(canister
        .icrc1_transfer(&caller(), transfer_args, time())
        .is_ok());
    assert_eq!(
        canister.icrc1_balance_of(&caller_account()),
        int_to_decimals(90_000).minus(&amount(ICRC1_FEE))
    );
}

#[test]
fn test_should_transfer_with_higher_fee() {
    let mut canister = init_canister();
    let transfer_args = transfer_to_bob(Some(amount(ICRC1_FEE * 2)), Some(time()), None);
    assert!(canister
        .icrc1_transfer(&caller(), transfer_args, time())
        .is_ok());
    assert_eq!(
        canister.icrc1_balance_of(&caller_account()),
        int_to_decimals(90_000).minus(&amount(ICRC1_FEE * 2))
    );
}

#[test]
fn test_should_not_allow_bad_memo() {
    let mut canister = init_canister();
    let transfer_args = transfer_to_bob(None, Some(time()), Some("9888".as_bytes().to_vec()));

    assert!(matches!(
        canister
            .icrc1_transfer(&caller(), transfer_args, time())
            .unwrap_err(),
        TransferError::GenericError { .. }
    ));

    let transfer_args = transfer_to_bob(
        None,
        Some(time()),
        Some("988898889888988898889888988898889888988898889888988898889888988898889888988898889888988898889888".as_bytes().to_vec()),
    );

    assert!(matches!(
        canister
            .icrc1_transfer(&caller(), transfer_args, time())
            .unwrap_err(),
        TransferError::GenericError { .. }
    ));
}

#[test]
fn test_should_transfer_with_memo() {
    let mut canister = init_canister();
    let transfer_args = transfer_to_bob(
        Some(amount(ICRC1_FEE)),
        Some(time()),
        Some(
            "293458234690283506958436839246024563"
                .to_string()
                .as_bytes()
                .to_vec(),
        ),
    );
    assert!(canister
        .icrc1_transfer(&caller(), transfer_args, time())
        .is_ok());
    assert_eq!(
        canister.icrc1_balance_of(&caller_account()),
        int_to_decimals(90_000).minus(&amount(ICRC1_FEE))
    );
    assert_eq!(
        canister.icrc1_balance_of(&bob_account()),
        int_to_decimals(60_000)
    );
}

#[test]
fn test_should_burn_from_transfer() {
    let mut canister = init_canister();
    let transfer_args = TransferArg {
        from_subaccount: caller_account().subaccount,
        to: canister.icrc1_minting_account(),
        amount: int_to_decimals(10_000),
        fee: None,
        created_at_time: Some(time()),
        memo: None,
    };
    assert!(canister
        .icrc1_transfer(&caller(), transfer_args, time())
        .is_ok());
    assert_eq!(
        canister.icrc1_balance_of(&caller_account()),
        int_to_decimals(90_000)
    );
    assert_eq!(
        canister.icrc1_total_supply(),
        int_to_decimals(8_888_888 - 10_000)
    );
}

#[test]
fn test_should_get_supported_extensions() {
    let extensions = Icrc2Canister::icrc1_supported_standards();
    assert_eq!(extensions.len(), 2);
    assert_eq!(extensions.first().unwrap().name, TokenExtension::icrc1().name);
    assert_eq!(extensions.get(1).unwrap().name, TokenExtension::icrc2().name);
    assert_eq!(TokenExtension::icrc1().name, "ICRC-1");
    assert_eq!(TokenExtension::icrc2().name, "ICRC-2");
    assert_eq!(
        TokenExtension::icrc2().url,
        "https://github.com/dfinity/ICRC-1"
    );
}

#[test]
fn test_should_approve_spending() {
    let mut canister = init_canister();
    let approval_args = ApproveArgs {
        from_subaccount: caller_account().subaccount,
        spender: bob_account(),
        amount: int_to_decimals(10_000),
        fee: None,
        expires_at: None,
        expected_allowance: None,
        memo: None,
        created_at_time: None,
    };

    assert!(canister
        .icrc2_approve(&caller(), approval_args, time())
        .is_ok());
    // check allowance
    assert_eq!(
        canister.icrc2_allowance(AllowanceArgs {
            account: caller_account(),
            spender: bob_account(),
        }),
        Allowance {
            allowance: int_to_decimals(10_000),
            expires_at: None,
        }
    );
    // check we have paid fee
    assert_eq!(
        canister.icrc1_balance_of(&caller_account()),
        int_to_decimals(100_000).minus(&amount(ICRC1_FEE))
    );
}

#[test]
fn test_should_not_approve_spending_if_we_cannot_pay_fee() {
    let mut canister = init_canister();
    let approval_args = ApproveArgs {
        from_subaccount: caller_account().subaccount,
        spender: bob_account(),
        amount: int_to_decimals(10_000),
        fee: Some(int_to_decimals(110_000)),
        expires_at: None,
        expected_allowance: None,
        memo: None,
        created_at_time: None,
    };

    assert!(canister
        .icrc2_approve(&caller(), approval_args, time())
        .is_err());
}

#[test]
fn test_should_spend_approved_amount() {
    let mut canister = init_canister();
    let approval_args = ApproveArgs {
        from_subaccount: bob_account().subaccount,
        spender: caller_account(),
        amount: int_to_decimals(10_000),
        fee: None,
        expires_at: None,
        expected_allowance: None,
        memo: None,
        created_at_time: None,
    };
    assert!(canister
        .allowances
        .approve_spend(&bob(), approval_args, time())
        .is_ok());
    assert_eq!(
        canister.icrc2_allowance(AllowanceArgs {
            account: bob_account(),
            spender: caller_account(),
        }),
        Allowance {
            allowance: int_to_decimals(10_000),
            expires_at: None,
        }
    );

    // spend
    assert!(canister
        .icrc2_transfer_from(
            &caller(),
            TransferFromArgs {
                spender_subaccount: caller_account().subaccount,
                from: bob_account(),
                to: alice_account(),
                amount: int_to_decimals(10_000),
                fee: None,
                memo: None,
                created_at_time: None,
            },
            time()
        )
        .is_ok());
    // verify balance
    assert_eq!(
        canister.icrc1_balance_of(&bob_account()),
        int_to_decimals(40_000)
    );
    assert_eq!(
        canister.icrc1_balance_of(&alice_account()),
        int_to_decimals(60_000)
    );
    assert_eq!(
        canister.icrc1_balance_of(&caller_account()),
        int_to_decimals(100_000).minus(&amount(ICRC1_FEE))
    );
    // verify allowance
    assert_eq!(
        canister.icrc2_allowance(AllowanceArgs {
            account: bob_account(),
            spender: caller_account(),
        }),
        Allowance {
            allowance: int_to_decimals(0),
            expires_at: None,
        }
    );
}

#[test]
fn transfer_keeps_supply_but_for_the_fee() {
    let mut canister = init_canister();
    let before = canister.icrc1_total_supply();
    assert_eq!(before, int_to_decimals(8_888_888));
    let now = time();
    assert_eq!(
        canister.icrc1_transfer(
            &caller(),
            transfer_to_bob(Some(amount(10_000)), Some(now), None),
            now
        ),
        Ok(amount(1))
    );
    assert_eq!(
        canister.icrc1_balance_of(&caller_account()),
        int_to_decimals(90_000).minus(&amount(10_000))
    );
    assert_eq!(
        canister.icrc1_balance_of(&bob_account()),
        int_to_decimals(60_000)
    );
    assert_eq!(canister.icrc1_balance_of(&minting_account()), amount(10_000));
    assert_eq!(
        canister.icrc1_total_supply().plus(&amount(10_000)),
        before
    );
    assert_eq!(
        canister.icrc1_balance_of(&canister_account()),
        int_to_decimals(8_888_888 - 200_000)
    );
}

#[test]
fn approve_then_transfer_from_end_to_end() {
    let mut canister = init_canister();
    let now = time();
    // caller approves bob
    assert_eq!(
        canister.icrc2_approve(
            &caller(),
            ApproveArgs {
                from_subaccount: caller_account().subaccount,
                spender: bob_account(),
                amount: int_to_decimals(10_000),
                fee: None,
                expires_at: None,
                expected_allowance: None,
                memo: None,
                created_at_time: None,
            },
            now
        ),
        Ok(int_to_decimals(10_000))
    );
    assert_eq!(canister.icrc1_balance_of(&minting_account()), amount(ICRC1_FEE));
    // bob, as spender, moves the amount from caller to alice
    assert_eq!(
        canister.icrc2_transfer_from(
            &bob(),
            TransferFromArgs {
                spender_subaccount: bob_account().subaccount,
                from: caller_account(),
                to: alice_account(),
                amount: int_to_decimals(10_000),
                fee: None,
                memo: None,
                created_at_time: None,
            },
            now
        ),
        Ok(amount(1))
    );
    assert_eq!(
        canister.icrc2_allowance(AllowanceArgs {
            account: caller_account(),
            spender: bob_account(),
        }),
        Allowance {
            allowance: amount(0),
            expires_at: None,
        }
    );
    assert_eq!(
        canister.icrc1_balance_of(&alice_account()),
        int_to_decimals(60_000)
    );
    assert_eq!(
        canister.icrc1_balance_of(&caller_account()),
        int_to_decimals(90_000).minus(&amount(ICRC1_FEE))
    );
    assert_eq!(
        canister.icrc1_balance_of(&bob_account()),
        int_to_decimals(50_000).minus(&amount(ICRC1_FEE))
    );
    assert_eq!(
        canister.icrc1_balance_of(&minting_account()),
        amount(2 * ICRC1_FEE)
    );
}

#[test]
fn transfer_reports_the_balance_when_funds_are_short() {
    let mut canister = init_canister();
    let now = time();
    let mut args = transfer_to_bob(None, None, None);
    args.amount = int_to_decimals(100_000);
    assert_eq!(
        canister.icrc1_transfer(&caller(), args, now),
        Err(TransferError::InsufficientFunds {
            balance: int_to_decimals(100_000)
        })
    );
    assert_eq!(
        canister.icrc1_balance_of(&caller_account()),
        int_to_decimals(100_000)
    );
    assert_eq!(
        canister.icrc1_balance_of(&bob_account()),
        int_to_decimals(50_000)
    );
}

#[test]
fn approve_maps_store_refusals() {
    let mut canister = init_canister();
    let now = time();
    let args = ApproveArgs {
        from_subaccount: caller_account().subaccount,
        spender: bob_account(),
        amount: amount(5),
        fee: None,
        expires_at: None,
        expected_allowance: None,
        memo: None,
        created_at_time: None,
    };
    assert_eq!(canister.icrc2_approve(&caller(), args.clone(), now), Ok(amount(5)));
    let mut stale = args.clone();
    stale.expected_allowance = Some(amount(4));
    assert_eq!(
        canister.icrc2_approve(&caller(), stale, now),
        Err(ApproveError::AllowanceChanged {
            current_allowance: amount(5)
        })
    );
    // the fee of the refused approval was charged all the same
    assert_eq!(
        canister.icrc1_balance_of(&minting_account()),
        amount(2 * ICRC1_FEE)
    );
    let mut poor = args.clone();
    poor.fee = Some(int_to_decimals(110_000));
    assert_eq!(
        canister.icrc2_approve(&caller(), poor, now),
        Err(ApproveError::InsufficientFunds {
            balance: int_to_decimals(100_000).minus(&amount(2 * ICRC1_FEE))
        })
    );
    let mut own = args.clone();
    own.spender = caller_account();
    assert_eq!(
        canister.icrc2_approve(&caller(), own, now),
        Err(ApproveError::GenericError {
            error_code: 0,
            message: "Spender and owner cannot be equal".to_string()
        })
    );
}

#[test]
fn transfer_from_refusals_change_nothing() {
    let mut canister = init_canister();
    let now = time();
    let request = |value: Amount| TransferFromArgs {
        spender_subaccount: bob_account().subaccount,
        from: caller_account(),
        to: alice_account(),
        amount: value,
        fee: None,
        memo: None,
        created_at_time: None,
    };
    // no allowance at all
    assert_eq!(
        canister.icrc2_transfer_from(&bob(), request(amount(1)), now),
        Err(TransferFromError::InsufficientAllowance {
            allowance: amount(0)
        })
    );
    assert_eq!(
        canister.icrc2_transfer_from(&bob(), request(amount(0)), now),
        Err(TransferFromError::GenericError {
            error_code: 0,
            message: "allowance error allowance not found".to_string()
        })
    );
    // the owner holds less than the amount
    assert_eq!(
        canister.icrc2_transfer_from(&bob(), request(int_to_decimals(100_001)), now),
        Err(TransferFromError::InsufficientFunds {
            balance: int_to_decimals(100_000)
        })
    );
    // an allowance that expires
    assert!(canister
        .allowances
        .approve_spend(
            &caller(),
            ApproveArgs {
                from_subaccount: caller_account().subaccount,
                spender: bob_account(),
                amount: amount(100),
                fee: None,
                expires_at: Some(now + 5),
                expected_allowance: None,
                memo: None,
                created_at_time: None,
            },
            now
        )
        .is_ok());
    assert_eq!(
        canister.icrc2_transfer_from(&bob(), request(amount(101)), now),
        Err(TransferFromError::InsufficientAllowance {
            allowance: amount(100)
        })
    );
    assert_eq!(
        canister.icrc2_transfer_from(&bob(), request(amount(100)), now + 6),
        Err(TransferFromError::TooOld)
    );
    assert_eq!(
        canister.icrc1_balance_of(&caller_account()),
        int_to_decimals(100_000)
    );
    assert_eq!(
        canister.icrc1_balance_of(&bob_account()),
        int_to_decimals(50_000)
    );
    assert_eq!(canister.icrc1_balance_of(&minting_account()), amount(0));
    assert_eq!(
        canister.icrc2_allowance(AllowanceArgs {
            account: caller_account(),
            spender: bob_account(),
        }),
        Allowance {
            allowance: amount(100),
            expires_at: Some(now + 5),
        }
    );
    assert_eq!(
        canister.icrc2_transfer_from(&bob(), request(amount(100)), now + 5),
        Ok(amount(1))
    );
}

#[test]
fn balances_and_allowances_are_kept_apart() {
    let mut canister = init_canister();
    let now = time();
    assert_eq!(canister.allowances.len(), 0);
    // writing balances leaves the allowances empty
    assert_eq!(
        canister.icrc1_transfer(&caller(), transfer_to_bob(None, None, None), now),
        Ok(amount(1))
    );
    assert_eq!(canister.allowances.len(), 0);
    // writing an allowance changes no balance but by the fee
    let supply = canister.icrc1_total_supply();
    assert_eq!(
        canister.icrc2_approve(
            &caller(),
            ApproveArgs {
                from_subaccount: caller_account().subaccount,
                spender: bob_account(),
                amount: amount(7),
                fee: None,
                expires_at: None,
                expected_allowance: None,
                memo: None,
                created_at_time: None,
            },
            now
        ),
        Ok(amount(7))
    );
    assert_eq!(canister.allowances.len(), 1);
    assert_eq!(
        canister.icrc1_total_supply().plus(&amount(ICRC1_FEE)),
        supply
    );
    assert_eq!(
        canister.icrc1_balance_of(&bob_account()),
        int_to_decimals(60_000)
    );
    assert_eq!(
        canister.icrc1_balance_of(&alice_account()),
        int_to_decimals(50_000)
    );
    // sweeping the allowances leaves the balances as they are
    canister.allowances.remove_expired_allowance(now);
    assert_eq!(canister.allowances.len(), 1);
    assert_eq!(
        canister.icrc1_balance_of(&caller_account()),
        int_to_decimals(90_000).minus(&amount(2 * ICRC1_FEE))
    );
}
