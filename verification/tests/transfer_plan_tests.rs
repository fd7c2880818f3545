use anchor_lang::solana_program::pubkey::Pubkey;
use klend_guard::token_program::LendingError;
use klend_guard::transfer::{
    borrow_obligation_liquidity_transfer, burn, burn_with_signer, deposit_obligation_collateral_transfer,
    deposit_reserve_liquidity_transfer, mint, next_invocation, plan_outcome, repay_obligation_liquidity_transfer,
    withdraw_obligation_collateral_transfer, RunError, TokenCpi, TokenInstruction,
};

fn spl() -> [u8; 32] {
    spl_token::ID.to_bytes()
}

fn t22() -> [u8; 32] {
    spl_token_2022::ID.to_bytes()
}

fn other() -> [u8; 32] {
    Pubkey::new_unique().to_bytes()
}

fn acct(n: u8) -> [u8; 32] {
    [n; 32]
}

fn seeds() -> Vec<Vec<u8>> {
    vec![b"lma".to_vec(), vec![254]]
}

#[test]
fn deposit_collateral_accepts_both_token_programs() {
    for program in [spl(), t22()] {
        let plan = deposit_obligation_collateral_transfer(&acct(1), &acct(2), &acct(3), &program, 42);
        assert_eq!(
            plan.calls,
            vec![TokenCpi {
                program,
                instruction: TokenInstruction::Transfer { from: acct(1), to: acct(2), authority: acct(3), amount: 42 },
                signers: vec![],
            }]
        );
        assert_eq!(plan.outcome, Ok(()));
        assert_eq!(plan.rejected_program, None);
    }
}

#[test]
fn deposit_collateral_rejects_other_program_without_invoking() {
    let program = other();
    let plan = deposit_obligation_collateral_transfer(&acct(1), &acct(2), &acct(3), &program, 42);
    assert!(plan.calls.is_empty());
    assert_eq!(plan.outcome, Err(LendingError::InvalidTokenProgram));
    assert_eq!(plan.rejected_program, Some(program));
}

#[test]
fn withdraw_collateral_moves_source_to_destination_with_seeds() {
    // destination is the second argument, source the third
    let plan = withdraw_obligation_collateral_transfer(&t22(), &acct(2), &acct(3), &acct(4), seeds(), 7);
    assert_eq!(
        plan.calls,
        vec![TokenCpi {
            program: t22(),
            instruction: TokenInstruction::Transfer { from: acct(3), to: acct(2), authority: acct(4), amount: 7 },
            signers: vec![seeds()],
        }]
    );
    assert_eq!(plan.outcome, Ok(()));
    let program = other();
    let rejected = withdraw_obligation_collateral_transfer(&program, &acct(2), &acct(3), &acct(4), seeds(), 7);
    assert!(rejected.calls.is_empty());
    assert_eq!(rejected.outcome, Err(LendingError::InvalidTokenProgram));
    assert_eq!(rejected.rejected_program, Some(program));
}

#[test]
fn repay_liquidity_is_unsigned_transfer_checked_from_user() {
    let plan = repay_obligation_liquidity_transfer(&spl(), &acct(9), &acct(1), &acct(2), &acct(3), 1_000, 6);
    assert_eq!(
        plan.calls,
        vec![TokenCpi {
            program: spl(),
            instruction: TokenInstruction::TransferChecked {
                from: acct(1),
                to: acct(2),
                authority: acct(3),
                mint: acct(9),
                amount: 1_000,
                decimals: 6,
            },
            signers: vec![],
        }]
    );
    let rejected = repay_obligation_liquidity_transfer(&other(), &acct(9), &acct(1), &acct(2), &acct(3), 1_000, 6);
    assert!(rejected.calls.is_empty());
    assert_eq!(rejected.outcome, Err(LendingError::InvalidTokenProgram));
}

#[test]
fn borrow_liquidity_is_signed_transfer_checked_from_reserve() {
    let plan =
        borrow_obligation_liquidity_transfer(&t22(), &acct(9), &acct(1), &acct(2), &acct(3), seeds(), u64::MAX, 9);
    assert_eq!(
        plan.calls,
        vec![TokenCpi {
            program: t22(),
            instruction: TokenInstruction::TransferChecked {
                from: acct(1),
                to: acct(2),
                authority: acct(3),
                mint: acct(9),
                amount: u64::MAX,
                decimals: 9,
            },
            signers: vec![seeds()],
        }]
    );
    assert_eq!(plan.outcome, Ok(()));
    let rejected = borrow_obligation_liquidity_transfer(&other(), &acct(9), &acct(1), &acct(2), &acct(3), seeds(), 5, 9);
    assert!(rejected.calls.is_empty());
    assert_eq!(rejected.outcome, Err(LendingError::InvalidTokenProgram));
}

#[test]
fn mint_only_through_spl_token() {
    let plan = mint(&spl(), &acct(5), &acct(6), &acct(7), seeds(), 11);
    assert_eq!(
        plan.calls,
        vec![TokenCpi {
            program: spl(),
            instruction: TokenInstruction::MintTo { mint: acct(5), to: acct(7), authority: acct(6), amount: 11 },
            signers: vec![seeds()],
        }]
    );
    assert_eq!(plan.outcome, Ok(()));
    for program in [t22(), other()] {
        let rejected = mint(&program, &acct(5), &acct(6), &acct(7), seeds(), 11);
        assert!(rejected.calls.is_empty());
        assert_eq!(rejected.outcome, Err(LendingError::InvalidTokenProgram));
        assert_eq!(rejected.rejected_program, Some(program));
    }
}

#[test]
fn burn_only_through_spl_token() {
    let plan = burn(&acct(5), &acct(6), &acct(7), &spl(), 3);
    assert_eq!(
        plan.calls,
        vec![TokenCpi {
            program: spl(),
            instruction: TokenInstruction::Burn { mint: acct(5), from: acct(6), authority: acct(7), amount: 3 },
            signers: vec![],
        }]
    );
    let two_signers = vec![seeds(), vec![b"other".to_vec()]];
    let signed = burn_with_signer(&acct(5), &acct(6), &acct(7), &spl(), 3, two_signers.clone());
    assert_eq!(
        signed.calls,
        vec![TokenCpi {
            program: spl(),
            instruction: TokenInstruction::Burn { mint: acct(5), from: acct(6), authority: acct(7), amount: 3 },
            signers: two_signers,
        }]
    );
    for program in [t22(), other()] {
        let plan = burn(&acct(5), &acct(6), &acct(7), &program, 3);
        assert!(plan.calls.is_empty());
        assert_eq!(plan.outcome, Err(LendingError::InvalidTokenProgram));
        let plan = burn_with_signer(&acct(5), &acct(6), &acct(7), &program, 3, vec![seeds()]);
        assert!(plan.calls.is_empty());
        assert_eq!(plan.outcome, Err(LendingError::InvalidTokenProgram));
    }
}

fn reserve_deposit(liquidity: [u8; 32], collateral: [u8; 32]) -> klend_guard::transfer::TokenPlan {
    deposit_reserve_liquidity_transfer(
        &acct(1),
        &acct(2),
        &acct(3),
        &acct(4),
        &liquidity,
        &acct(5),
        &collateral,
        &acct(6),
        &acct(7),
        seeds(),
        500,
        6,
        480,
    )
}

fn liquidity_transfer(program: [u8; 32]) -> TokenCpi {
    TokenCpi {
        program,
        instruction: TokenInstruction::TransferChecked {
            from: acct(1),
            to: acct(2),
            authority: acct(3),
            mint: acct(4),
            amount: 500,
            decimals: 6,
        },
        signers: vec![],
    }
}

#[test]
fn deposit_reserve_liquidity_transfers_then_mints() {
    let plan = reserve_deposit(t22(), spl());
    assert_eq!(
        plan.calls,
        vec![
            liquidity_transfer(t22()),
            TokenCpi {
                program: spl(),
                instruction: TokenInstruction::MintTo { mint: acct(5), to: acct(6), authority: acct(7), amount: 480 },
                signers: vec![seeds()],
            },
        ]
    );
    assert_eq!(plan.outcome, Ok(()));
}

#[test]
fn deposit_reserve_liquidity_rejects_before_any_invocation() {
    let (bad_a, bad_b) = (other(), other());
    for (liquidity, collateral, rejected) in
        [(bad_a, spl(), bad_a), (spl(), bad_b, bad_b), (bad_a, bad_b, bad_a)]
    {
        let plan = reserve_deposit(liquidity, collateral);
        assert!(plan.calls.is_empty());
        assert_eq!(plan.outcome, Err(LendingError::InvalidTokenProgram));
        assert_eq!(plan.rejected_program, Some(rejected));
    }
}

#[test]
fn deposit_reserve_liquidity_with_token_2022_collateral_fails_after_transfer() {
    let plan = reserve_deposit(spl(), t22());
    assert_eq!(plan.calls, vec![liquidity_transfer(spl())]);
    assert_eq!(plan.outcome, Err(LendingError::InvalidTokenProgram));
    assert_eq!(plan.rejected_program, Some(t22()));
}

#[test]
fn plan_outcome_is_first_failure_else_outcome() {
    let ok: Result<(), LendingError> = Ok(());
    let rejected: Result<(), LendingError> = Err(LendingError::InvalidTokenProgram);
    assert!(matches!(plan_outcome::<u32>(ok, vec![Ok(()), Ok(())]), Ok(())));
    assert!(matches!(plan_outcome::<u32>(ok, vec![]), Ok(())));
    assert!(matches!(plan_outcome(ok, vec![Ok(()), Err(7u32)]), Err(RunError::Invocation(7))));
    assert!(matches!(plan_outcome(rejected, vec![Err(3u32)]), Err(RunError::Invocation(3))));
    assert!(matches!(
        plan_outcome::<u32>(rejected, vec![Ok(())]),
        Err(RunError::Rejected(LendingError::InvalidTokenProgram))
    ));
    assert!(matches!(plan_outcome(ok, vec![Err(1u32), Err(2u32)]), Err(RunError::Invocation(1))));
}

#[test]
fn next_invocation_stops_after_a_failure() {
    let none: Vec<Result<(), u32>> = vec![];
    assert_eq!(next_invocation(2, &none), Some(0));
    assert_eq!(next_invocation(0, &none), None);
    assert_eq!(next_invocation(2, &vec![Ok::<(), u32>(())]), Some(1));
    assert_eq!(next_invocation(2, &vec![Err::<(), u32>(5)]), None);
    assert_eq!(next_invocation(2, &vec![Ok::<(), u32>(()), Ok(())]), None);
    assert_eq!(next_invocation(3, &vec![Ok::<(), u32>(()), Err(1)]), None);
}
