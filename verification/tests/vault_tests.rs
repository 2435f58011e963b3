use metric_vault::encoder::swap_tokens_calldata;
use metric_vault::types::{Address, Amount};
use metric_vault::vault::{
    compute_percentage, compute_share, AssetOutcome, RebalanceOutcome, Vault, VaultError,
    POOL_FEE, SCALE_FACTOR,
};

fn addr(last_byte: u8) -> Address {
    let mut bytes = vec![0u8; 20];
    bytes[19] = last_byte;
    Address::from_bytes(bytes).unwrap()
}

fn max_amount() -> Amount {
    Amount::from_bytes(vec![0xff; 32]).unwrap()
}

fn configured_vault(tokens: Vec<Address>) -> Vault {
    let mut vault = Vault::new();
    vault.initialize(addr(0x10), addr(0x20), addr(0x30), tokens);
    vault
}

#[test]
fn proportional_share_is_exact() {
    // 50% at SCALE = 10^18 of a balance of 1000 is exactly 500.
    let balance = Amount::from_u64(1000);
    let percentage = Amount::from_u64(500000000000000000);
    let share = compute_share(&balance, &percentage).unwrap();
    assert_eq!(share.as_bytes(), Amount::from_u64(500).as_bytes());
}

#[test]
fn percentage_is_scaled_quotient() {
    // Withdrawing 1 of a supply of 2 is 50% in fixed-point units.
    let percentage = compute_percentage(&Amount::from_u64(1), &Amount::from_u64(2)).unwrap();
    assert_eq!(
        percentage.as_bytes(),
        Amount::from_u64(SCALE_FACTOR / 2).as_bytes()
    );
}

#[test]
fn zero_supply_is_division_by_zero() {
    let err = compute_percentage(&Amount::from_u64(5), &Amount::from_u64(0)).unwrap_err();
    assert_eq!(err, VaultError::DivisionByZero);
}

#[test]
fn zero_supply_takes_precedence_over_overflow() {
    // The supply check comes before any multiplication.
    let err = compute_percentage(&max_amount(), &Amount::from_u64(0)).unwrap_err();
    assert_eq!(err, VaultError::DivisionByZero);
}

#[test]
fn percentage_overflow_is_fatal() {
    let err = compute_percentage(&max_amount(), &Amount::from_u64(2)).unwrap_err();
    assert_eq!(err, VaultError::ArithmeticOverflow);
}

#[test]
fn share_overflow_is_fatal() {
    let err = compute_share(&max_amount(), &Amount::from_u64(SCALE_FACTOR)).unwrap_err();
    assert_eq!(err, VaultError::ArithmeticOverflow);
}

#[test]
fn withdraw_survives_one_failed_query() {
    // Three held assets; the middle balance query fails. The withdrawal
    // must still process the other two and still burn the full amount.
    let token_a = addr(0x41);
    let token_b = addr(0x42);
    let base = addr(0x20);
    let vault = configured_vault(vec![
        token_a.copied(),
        token_b.copied(),
        base.copied(),
    ]);
    let caller = addr(0x77);
    let vault_address = addr(0x88);
    let balances = vec![
        Some(Amount::from_u64(1000)),
        None,
        Some(Amount::from_u64(600)),
    ];
    // amount_out 1 of supply 2: 50%.
    let plan = vault
        .withdraw(
            &caller,
            &vault_address,
            &Amount::from_u64(1),
            &Amount::from_u64(2),
            &balances,
        )
        .unwrap();

    assert_eq!(plan.outcomes.len(), 3);
    assert_eq!(plan.burn_from.as_bytes(), caller.as_bytes());
    assert_eq!(plan.burn_amount.as_bytes(), Amount::from_u64(1).as_bytes());

    match &plan.outcomes[0] {
        AssetOutcome::SwapToBase { approve, amount, calldata } => {
            assert_eq!(approve.token.as_bytes(), token_a.as_bytes());
            assert_eq!(approve.spender.as_bytes(), addr(0x30).as_bytes());
            assert_eq!(approve.amount.as_bytes(), Amount::from_u64(500).as_bytes());
            assert_eq!(amount.as_bytes(), Amount::from_u64(500).as_bytes());
            let expected = swap_tokens_calldata(
                &token_a,
                &base,
                POOL_FEE,
                &Amount::from_u64(500),
                &Amount::from_u64(0),
                &vault_address,
            );
            assert_eq!(calldata, &expected);
        },
        _ => panic!("expected a swap into the base asset"),
    }
    assert!(matches!(plan.outcomes[1], AssetOutcome::QueryFailed));
    match &plan.outcomes[2] {
        AssetOutcome::TransferOut { transfer } => {
            assert_eq!(transfer.token.as_bytes(), base.as_bytes());
            assert_eq!(transfer.to.as_bytes(), caller.as_bytes());
            assert_eq!(transfer.amount.as_bytes(), Amount::from_u64(300).as_bytes());
        },
        _ => panic!("expected a direct transfer of the base asset"),
    }
}

#[test]
fn withdraw_zero_supply_fails() {
    let vault = configured_vault(vec![addr(0x41)]);
    let err = vault
        .withdraw(
            &addr(0x77),
            &addr(0x88),
            &Amount::from_u64(1),
            &Amount::from_u64(0),
            &vec![Some(Amount::from_u64(5))],
        )
        .unwrap_err();
    assert_eq!(err, VaultError::DivisionByZero);
}

#[test]
fn withdraw_skips_zero_shares() {
    // A balance of 1 at 50% rounds down to a zero share: a no-op, not an
    // error.
    let vault = configured_vault(vec![addr(0x41)]);
    let plan = vault
        .withdraw(
            &addr(0x77),
            &addr(0x88),
            &Amount::from_u64(1),
            &Amount::from_u64(2),
            &vec![Some(Amount::from_u64(1))],
        )
        .unwrap();
    assert!(matches!(plan.outcomes[0], AssetOutcome::NoShare));
    assert_eq!(plan.burn_amount.as_bytes(), Amount::from_u64(1).as_bytes());
}

#[test]
fn withdraw_share_overflow_aborts() {
    let vault = configured_vault(vec![addr(0x41)]);
    let err = vault
        .withdraw(
            &addr(0x77),
            &addr(0x88),
            &Amount::from_u64(1),
            &Amount::from_u64(1),
            &vec![Some(max_amount())],
        )
        .unwrap_err();
    assert_eq!(err, VaultError::ArithmeticOverflow);
}

#[test]
fn rebalance_zips_to_the_shorter_length() {
    // Three tokens but only two direction flags: exactly two pairs are
    // processed.
    let vault = configured_vault(vec![]);
    let tokens = vec![addr(0x41), addr(0x42), addr(0x43)];
    let flags = vec![true, false];
    let hints = vec![Amount::from_u64(10), Amount::from_u64(20)];
    let balances = vec![Some(Amount::from_u64(5)), Some(Amount::from_u64(7))];
    let plan = vault.rebalance(&addr(0x88), &tokens, &flags, &hints, &balances);
    assert_eq!(plan.outcomes.len(), 2);
}

#[test]
fn rebalance_directions_and_skips() {
    let vault = configured_vault(vec![]);
    let base = addr(0x20);
    let vault_address = addr(0x88);
    let tokens = vec![addr(0x41), addr(0x42), addr(0x43), addr(0x44)];
    let flags = vec![true, false, true, false];
    let hints = vec![
        Amount::from_u64(10),
        Amount::from_u64(20),
        Amount::from_u64(30),
        Amount::from_u64(40),
    ];
    let balances = vec![
        Some(Amount::from_u64(5)),
        Some(Amount::from_u64(7)),
        None,
        Some(Amount::from_u64(0)),
    ];
    let plan = vault.rebalance(&vault_address, &tokens, &flags, &hints, &balances);
    assert_eq!(plan.outcomes.len(), 4);

    // Flag true: the token is swapped into the base asset for the hinted
    // amount, not the queried balance.
    match &plan.outcomes[0] {
        RebalanceOutcome::Swap { approve, amount, calldata } => {
            assert_eq!(approve.token.as_bytes(), tokens[0].as_bytes());
            assert_eq!(approve.spender.as_bytes(), addr(0x30).as_bytes());
            assert_eq!(approve.amount.as_bytes(), hints[0].as_bytes());
            assert_eq!(amount.as_bytes(), hints[0].as_bytes());
            let expected = swap_tokens_calldata(
                &tokens[0],
                &base,
                POOL_FEE,
                &hints[0],
                &Amount::from_u64(0),
                &vault_address,
            );
            assert_eq!(calldata, &expected);
        },
        _ => panic!("expected a swap for the first pair"),
    }
    // Flag false: the base asset is swapped into the token.
    match &plan.outcomes[1] {
        RebalanceOutcome::Swap { approve, calldata, .. } => {
            assert_eq!(approve.token.as_bytes(), base.as_bytes());
            let expected = swap_tokens_calldata(
                &base,
                &tokens[1],
                POOL_FEE,
                &hints[1],
                &Amount::from_u64(0),
                &vault_address,
            );
            assert_eq!(calldata, &expected);
        },
        _ => panic!("expected a swap for the second pair"),
    }
    assert!(matches!(plan.outcomes[2], RebalanceOutcome::QueryFailed));
    assert!(matches!(plan.outcomes[3], RebalanceOutcome::NoBalance));
}

#[test]
fn withdraw_with_no_held_assets_still_burns() {
    let vault = configured_vault(vec![]);
    let plan = vault
        .withdraw(
            &addr(0x77),
            &addr(0x88),
            &Amount::from_u64(3),
            &Amount::from_u64(9),
            &vec![],
        )
        .unwrap();
    assert_eq!(plan.outcomes.len(), 0);
    assert_eq!(plan.burn_amount.as_bytes(), Amount::from_u64(3).as_bytes());
}

#[test]
fn duplicate_held_assets_are_processed_independently() {
    let token = addr(0x41);
    let vault = configured_vault(vec![token.copied(), token.copied()]);
    let balances = vec![Some(Amount::from_u64(1000)), Some(Amount::from_u64(400))];
    let plan = vault
        .withdraw(
            &addr(0x77),
            &addr(0x88),
            &Amount::from_u64(1),
            &Amount::from_u64(2),
            &balances,
        )
        .unwrap();
    assert_eq!(plan.outcomes.len(), 2);
    match (&plan.outcomes[0], &plan.outcomes[1]) {
        (
            AssetOutcome::SwapToBase { amount: first, .. },
            AssetOutcome::SwapToBase { amount: second, .. },
        ) => {
            assert_eq!(first.as_bytes(), Amount::from_u64(500).as_bytes());
            assert_eq!(second.as_bytes(), Amount::from_u64(200).as_bytes());
        },
        _ => panic!("expected two independent swaps"),
    }
}

#[test]
fn vault_balances_reads_failures_as_zero() {
    let vault = configured_vault(vec![addr(0x41), addr(0x42)]);
    let balances = vault.vault_balances(&vec![Some(Amount::from_u64(5)), None]);
    assert_eq!(balances.len(), 2);
    assert_eq!(balances[0].as_bytes(), Amount::from_u64(5).as_bytes());
    assert_eq!(balances[1].as_bytes(), Amount::from_u64(0).as_bytes());
}

#[test]
fn deposit_pulls_base_asset_and_mints() {
    let vault = configured_vault(vec![addr(0x41)]);
    let caller = addr(0x77);
    let vault_address = addr(0x88);
    let plan = vault.deposit(&caller, &vault_address, &Amount::from_u64(250));
    assert_eq!(plan.transfer_from.token.as_bytes(), addr(0x20).as_bytes());
    assert_eq!(plan.transfer_from.from.as_bytes(), caller.as_bytes());
    assert_eq!(plan.transfer_from.to.as_bytes(), vault_address.as_bytes());
    assert_eq!(
        plan.transfer_from.amount.as_bytes(),
        Amount::from_u64(250).as_bytes()
    );
    assert_eq!(plan.mint_to.as_bytes(), caller.as_bytes());
    assert_eq!(plan.mint_amount.as_bytes(), Amount::from_u64(250).as_bytes());
}

#[test]
fn initialize_replaces_the_whole_configuration() {
    let mut vault = Vault::new();
    assert_eq!(vault.enabled_tokens.len(), 0);
    vault.initialize(addr(0x10), addr(0x20), addr(0x30), vec![addr(0x41), addr(0x42)]);
    assert_eq!(vault.metric_address.as_bytes(), addr(0x10).as_bytes());
    assert_eq!(vault.usdc_address.as_bytes(), addr(0x20).as_bytes());
    assert_eq!(vault.router_address.as_bytes(), addr(0x30).as_bytes());
    assert_eq!(vault.enabled_tokens.len(), 2);
    vault.initialize(addr(0x11), addr(0x21), addr(0x31), vec![addr(0x43)]);
    assert_eq!(vault.usdc_address.as_bytes(), addr(0x21).as_bytes());
    assert_eq!(vault.enabled_tokens.len(), 1);
    assert_eq!(vault.enabled_tokens[0].as_bytes(), addr(0x43).as_bytes());
}

#[test]
fn amount_helpers_round_trip() {
    assert!(Amount::from_u64(0).is_zero());
    assert!(!Amount::from_u64(1).is_zero());
    assert!(Address::from_bytes(vec![0u8; 19]).is_none());
    assert!(Amount::from_bytes(vec![0u8; 31]).is_none());
    let a = Amount::from_u64(0x0102030405060708);
    let mut expected = vec![0u8; 24];
    expected.extend_from_slice(&[1, 2, 3, 4, 5, 6, 7, 8]);
    assert_eq!(a.as_bytes(), &expected);
    let b = addr(0x99);
    assert!(b.eq_addr(&b.copied()));
    assert!(!b.eq_addr(&addr(0x98)));
}
