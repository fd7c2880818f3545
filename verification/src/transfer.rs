//! The token transfers of the lending market, each checked against the token
//! programs it is allowed to target before the invocation that needs it.
//!
//! Each function here decides what its transfer asks of the token programs,
//! with which accounts and signer seeds, and returns it as a [`TokenPlan`];
//! the caller performs the invocations and settles the result with
//! [`plan_outcome`].

use vstd::prelude::*;
use crate::token_program::{
    LendingError, is_spl_token_program, spl_token_key, token_2022_key, is_token_program, validate_spl_token_program,
    validate_token_program,
};

verus! {

/// One instruction of the token-program interface, with the addresses of the
/// accounts it is handed and its arguments.
#[derive(Debug, Clone, Copy, PartialEq, Eq)]
pub enum TokenInstruction {
    /// `transfer` of `amount` base units from `from` to `to`, authorised by `authority`.
    Transfer { from: [u8; 32], to: [u8; 32], authority: [u8; 32], amount: u64 },
    /// `transfer_checked` of `amount` base units of `mint` (with `decimals`
    /// decimals) from `from` to `to`, authorised by `authority`.
    TransferChecked {
        from: [u8; 32],
        to: [u8; 32],
        authority: [u8; 32],
        mint: [u8; 32],
        amount: u64,
        decimals: u8,
    },
    /// `mint_to` of `amount` base units of `mint` into `to`, authorised by `authority`.
    MintTo { mint: [u8; 32], to: [u8; 32], authority: [u8; 32], amount: u64 },
    /// `burn` of `amount` base units of `mint` from `from`, authorised by `authority`.
    Burn { mint: [u8; 32], from: [u8; 32], authority: [u8; 32], amount: u64 },
}

/// A cross-program invocation of a token program.
#[derive(Debug, PartialEq, Eq)]
pub struct TokenCpi {
    /// The address of the program invoked.
    pub program: [u8; 32],
    /// What it is asked to do, and with which accounts.
    pub instruction: TokenInstruction,
    /// The program-derived signers: for each, its seeds (empty when the
    /// invocation carries no signer seeds).
    pub signers: Vec<Vec<Vec<u8>>>,
}

/// An invocation as the contracts see it: program, instruction, signer seeds.
pub type CpiView = ([u8; 32], TokenInstruction, Seq<Seq<Seq<u8>>>);

impl View for TokenCpi {
    type V = CpiView;

    open spec fn view(&self) -> CpiView {
        (self.program, self.instruction, self.signers.deep_view())
    }
}

/// What a transfer helper does: the invocations `calls`, issued in order and
/// stopping at the first that fails (see [`next_invocation`] and
/// [`plan_outcome`]), and, when every
/// one of them succeeds, the result `outcome`. When `outcome` is an error,
/// `rejected_program` is the program that failed its check.
#[derive(Debug)]
pub struct TokenPlan {
    pub calls: Vec<TokenCpi>,
    pub outcome: Result<(), LendingError>,
    pub rejected_program: Option<[u8; 32]>,
}

/// A plan as the contracts see it.
pub type PlanView = (Seq<CpiView>, Result<(), LendingError>, Option<[u8; 32]>);

impl View for TokenPlan {
    type V = PlanView;

    open spec fn view(&self) -> PlanView {
        (self.calls@.map_values(|c: TokenCpi| c@), self.outcome, self.rejected_program)
    }
}

/// The plan of a helper that checks `program` and then makes one invocation:
/// the invocation if `accepted`, else nothing and the rejection of `program`.
pub open spec fn checked_call(accepted: bool, call: CpiView) -> PlanView {
    if accepted {
        (seq![call], Ok(()), None)
    } else {
        (Seq::empty(), Err(LendingError::InvalidTokenProgram), Some(call.0))
    }
}

/// No invocation goes to a program outside SPL Token and Token-2022, and every
/// mint or burn goes to SPL Token.
pub open spec fn targets_only_token_programs(calls: Seq<CpiView>) -> bool {
    forall|i: int| #![trigger calls[i]] 0 <= i < calls.len() ==> {
        &&& is_token_program(calls[i].0@)
        &&& (calls[i].1 is MintTo || calls[i].1 is Burn) ==> is_spl_token_program(calls[i].0@)
    }
}

/// The signer list of one program-derived signer with the given seeds.
pub open spec fn one_signer(seeds: Seq<Seq<u8>>) -> Seq<Seq<Seq<u8>>> {
    seq![seeds]
}

/// The plan of `mint`.
pub open spec fn mint_plan(
    token_program: [u8; 32],
    token_mint: [u8; 32],
    token_mint_authority: [u8; 32],
    user_token_ata: [u8; 32],
    authority_signer_seeds: Seq<Seq<u8>>,
    mint_amount: u64,
) -> PlanView {
    checked_call(
        is_spl_token_program(token_program@),
        (
            token_program,
            TokenInstruction::MintTo {
                mint: token_mint,
                to: user_token_ata,
                authority: token_mint_authority,
                amount: mint_amount,
            },
            one_signer(authority_signer_seeds),
        ),
    )
}

/// The plan of `deposit_reserve_liquidity_transfer`: both programs are checked
/// first; then the liquidity moves, and the collateral is minted as `mint`
/// does (whose own check, SPL Token only, comes after the liquidity moved).
pub open spec fn deposit_reserve_liquidity_plan(
    source_liquidity_deposit: [u8; 32],
    destination_liquidity_deposit: [u8; 32],
    user_authority: [u8; 32],
    liquidity_mint: [u8; 32],
    liquidity_token_program: [u8; 32],
    collateral_mint: [u8; 32],
    collateral_token_program: [u8; 32],
    destination_collateral: [u8; 32],
    mint_authority: [u8; 32],
    authority_signer_seeds: Seq<Seq<u8>>,
    liquidity_deposit_amount: u64,
    liquidity_decimals: u8,
    collateral_mint_amount: u64,
) -> PlanView {
    if !is_token_program(liquidity_token_program@) {
        (Seq::empty(), Err(LendingError::InvalidTokenProgram), Some(liquidity_token_program))
    } else if !is_token_program(collateral_token_program@) {
        (Seq::empty(), Err(LendingError::InvalidTokenProgram), Some(collateral_token_program))
    } else {
        let minted = mint_plan(
            collateral_token_program,
            collateral_mint,
            mint_authority,
            destination_collateral,
            authority_signer_seeds,
            collateral_mint_amount,
        );
        (
            seq![
                (
                    liquidity_token_program,
                    TokenInstruction::TransferChecked {
                        from: source_liquidity_deposit,
                        to: destination_liquidity_deposit,
                        authority: user_authority,
                        mint: liquidity_mint,
                        amount: liquidity_deposit_amount,
                        decimals: liquidity_decimals,
                    },
                    Seq::<Seq<Seq<u8>>>::empty(),
                ),
            ] + minted.0,
            minted.1,
            minted.2,
        )
    }
}

/// No signers.
fn no_signers() -> (s: Vec<Vec<Vec<u8>>>)
    ensures
        s.deep_view() == Seq::<Seq<Seq<u8>>>::empty(),
{
    let s: Vec<Vec<Vec<u8>>> = Vec::new();
    assert(s.deep_view() =~= Seq::<Seq<Seq<u8>>>::empty());
    s
}

/// One program-derived signer with the given seeds.
fn single_signer(seeds: Vec<Vec<u8>>) -> (s: Vec<Vec<Vec<u8>>>)
    ensures
        s.deep_view() == one_signer(seeds.deep_view()),
        s.deep_view() == seq![seeds.deep_view()],
{
    let ghost seeds_view = seeds.deep_view();
    let mut s: Vec<Vec<Vec<u8>>> = Vec::new();
    s.push(seeds);
    assert(s.deep_view() =~= one_signer(seeds_view));
    s
}

/// A plan of one invocation, or of none when `checked` rejected `program`.
fn single_call(
    checked: Result<(), LendingError>,
    program: [u8; 32],
    instruction: TokenInstruction,
    signers: Vec<Vec<Vec<u8>>>,
) -> (plan: TokenPlan)
    ensures
        plan@ == checked_call(checked is Ok, (program, instruction, signers.deep_view())),
{
    let ghost call_view: CpiView = (program, instruction, signers.deep_view());
    let mut calls: Vec<TokenCpi> = Vec::new();
    match checked {
        Ok(()) => {
            let call = TokenCpi { program, instruction, signers };
            assert(call@ == call_view);
            calls.push(call);
            assert(calls@.map_values(|c: TokenCpi| c@) =~= seq![call_view]);
            TokenPlan { calls, outcome: Ok(()), rejected_program: None }
        },
        Err(_) => {
            assert(calls@.map_values(|c: TokenCpi| c@) =~= Seq::<CpiView>::empty());
            TokenPlan { calls, outcome: Err(LendingError::InvalidTokenProgram), rejected_program: Some(program) }
        },
    }
}

/// Moves deposited collateral from `from` to `to` (`transfer`, authorised by
/// `authority`, without signer seeds), once the program is SPL Token or
/// Token-2022.
pub fn deposit_obligation_collateral_transfer(
    from: &[u8; 32],
    to: &[u8; 32],
    authority: &[u8; 32],
    token_program: &[u8; 32],
    collateral_amount: u64,
) -> (plan: TokenPlan)
    ensures
        plan@ == checked_call(
            is_token_program(token_program@),
            (
                *token_program,
                TokenInstruction::Transfer { from: *from, to: *to, authority: *authority, amount: collateral_amount },
                Seq::<Seq<Seq<u8>>>::empty(),
            ),
        ),
        targets_only_token_programs(plan@.0),
        plan@.0.len() == (if (token_program@ == spl_token_key() || token_program@ == token_2022_key()) { 1int } else { 0int }),
        plan@.1 == (if (token_program@ == spl_token_key() || token_program@ == token_2022_key()) { Ok::<(), LendingError>(()) } else { Err(LendingError::InvalidTokenProgram) }),
        plan@.2 == (if (token_program@ == spl_token_key() || token_program@ == token_2022_key()) { None::<[u8; 32]> } else { Some(*token_program) }),
        plan@.0.len() == 1 ==> plan@.0[0] == (*token_program, TokenInstruction::Transfer { from: *from, to: *to, authority: *authority, amount: collateral_amount }, Seq::<Seq<Seq<u8>>>::empty()),
{
    let checked = validate_token_program(token_program);
    single_call(
        checked,
        *token_program,
        TokenInstruction::Transfer { from: *from, to: *to, authority: *authority, amount: collateral_amount },
        no_signers(),
    )
}

/// Moves withdrawn collateral from `source_collateral` to
/// `destination_collateral` (`transfer`, authorised by the lending market
/// authority with its seeds), once the program is SPL Token or Token-2022.
pub fn withdraw_obligation_collateral_transfer(
    token_program: &[u8; 32],
    destination_collateral: &[u8; 32],
    source_collateral: &[u8; 32],
    lending_market_authority: &[u8; 32],
    authority_signer_seeds: Vec<Vec<u8>>,
    withdraw_amount: u64,
) -> (plan: TokenPlan)
    ensures
        plan@ == checked_call(
            is_token_program(token_program@),
            (
                *token_program,
                TokenInstruction::Transfer {
                    from: *source_collateral,
                    to: *destination_collateral,
                    authority: *lending_market_authority,
                    amount: withdraw_amount,
                },
                one_signer(authority_signer_seeds.deep_view()),
            ),
        ),
        targets_only_token_programs(plan@.0),
        plan@.0.len() == (if (token_program@ == spl_token_key() || token_program@ == token_2022_key()) { 1int } else { 0int }),
        plan@.1 == (if (token_program@ == spl_token_key() || token_program@ == token_2022_key()) { Ok::<(), LendingError>(()) } else { Err(LendingError::InvalidTokenProgram) }),
        plan@.2 == (if (token_program@ == spl_token_key() || token_program@ == token_2022_key()) { None::<[u8; 32]> } else { Some(*token_program) }),
        plan@.0.len() == 1 ==> plan@.0[0] == (*token_program, TokenInstruction::Transfer { from: *source_collateral, to: *destination_collateral, authority: *lending_market_authority, amount: withdraw_amount }, seq![authority_signer_seeds.deep_view()]),
{
    let checked = validate_token_program(token_program);
    single_call(
        checked,
        *token_program,
        TokenInstruction::Transfer {
            from: *source_collateral,
            to: *destination_collateral,
            authority: *lending_market_authority,
            amount: withdraw_amount,
        },
        single_signer(authority_signer_seeds),
    )
}

/// Moves repaid liquidity from `user_liquidity` to `reserve_liquidity`
/// (`transfer_checked` of `liquidity_mint`, authorised by `user_authority`,
/// without signer seeds), once the program is SPL Token or Token-2022.
pub fn repay_obligation_liquidity_transfer(
    token_program: &[u8; 32],
    liquidity_mint: &[u8; 32],
    user_liquidity: &[u8; 32],
    reserve_liquidity: &[u8; 32],
    user_authority: &[u8; 32],
    repay_amount: u64,
    decimals: u8,
) -> (plan: TokenPlan)
    ensures
        plan@ == checked_call(
            is_token_program(token_program@),
            (
                *token_program,
                TokenInstruction::TransferChecked {
                    from: *user_liquidity,
                    to: *reserve_liquidity,
                    authority: *user_authority,
                    mint: *liquidity_mint,
                    amount: repay_amount,
                    decimals,
                },
                Seq::<Seq<Seq<u8>>>::empty(),
            ),
        ),
        targets_only_token_programs(plan@.0),
        plan@.0.len() == (if (token_program@ == spl_token_key() || token_program@ == token_2022_key()) { 1int } else { 0int }),
        plan@.1 == (if (token_program@ == spl_token_key() || token_program@ == token_2022_key()) { Ok::<(), LendingError>(()) } else { Err(LendingError::InvalidTokenProgram) }),
        plan@.2 == (if (token_program@ == spl_token_key() || token_program@ == token_2022_key()) { None::<[u8; 32]> } else { Some(*token_program) }),
        plan@.0.len() == 1 ==> plan@.0[0] == (*token_program, TokenInstruction::TransferChecked { from: *user_liquidity, to: *reserve_liquidity, authority: *user_authority, mint: *liquidity_mint, amount: repay_amount, decimals: decimals }, Seq::<Seq<Seq<u8>>>::empty()),
{
    let checked = validate_token_program(token_program);
    single_call(
        checked,
        *token_program,
        TokenInstruction::TransferChecked {
            from: *user_liquidity,
            to: *reserve_liquidity,
            authority: *user_authority,
            mint: *liquidity_mint,
            amount: repay_amount,
            decimals,
        },
        no_signers(),
    )
}

/// Moves borrowed liquidity from `reserve_liquidity` to `user_liquidity`
/// (`transfer_checked` of `liquidity_mint`, authorised by the lending market
/// authority with its seeds), once the program is SPL Token or Token-2022.
pub fn borrow_obligation_liquidity_transfer(
    token_program: &[u8; 32],
    liquidity_mint: &[u8; 32],
    reserve_liquidity: &[u8; 32],
    user_liquidity: &[u8; 32],
    lending_market_authority: &[u8; 32],
    authority_signer_seeds: Vec<Vec<u8>>,
    liquidity_amount: u64,
    liquidity_decimals: u8,
) -> (plan: TokenPlan)
    ensures
        plan@ == checked_call(
            is_token_program(token_program@),
            (
                *token_program,
                TokenInstruction::TransferChecked {
                    from: *reserve_liquidity,
                    to: *user_liquidity,
                    authority: *lending_market_authority,
                    mint: *liquidity_mint,
                    amount: liquidity_amount,
                    decimals: liquidity_decimals,
                },
                one_signer(authority_signer_seeds.deep_view()),
            ),
        ),
        targets_only_token_programs(plan@.0),
        plan@.0.len() == (if (token_program@ == spl_token_key() || token_program@ == token_2022_key()) { 1int } else { 0int }),
        plan@.1 == (if (token_program@ == spl_token_key() || token_program@ == token_2022_key()) { Ok::<(), LendingError>(()) } else { Err(LendingError::InvalidTokenProgram) }),
        plan@.2 == (if (token_program@ == spl_token_key() || token_program@ == token_2022_key()) { None::<[u8; 32]> } else { Some(*token_program) }),
        plan@.0.len() == 1 ==> plan@.0[0] == (*token_program, TokenInstruction::TransferChecked { from: *reserve_liquidity, to: *user_liquidity, authority: *lending_market_authority, mint: *liquidity_mint, amount: liquidity_amount, decimals: liquidity_decimals }, seq![authority_signer_seeds.deep_view()]),
{
    let checked = validate_token_program(token_program);
    single_call(
        checked,
        *token_program,
        TokenInstruction::TransferChecked {
            from: *reserve_liquidity,
            to: *user_liquidity,
            authority: *lending_market_authority,
            mint: *liquidity_mint,
            amount: liquidity_amount,
            decimals: liquidity_decimals,
        },
        single_signer(authority_signer_seeds),
    )
}

/// Mints `mint_amount` of `token_mint` into `user_token_ata` (`mint_to`,
/// authorised by the mint authority with its seeds), once the program is SPL
/// Token; Token-2022 is refused here.
pub fn mint(
    token_program: &[u8; 32],
    token_mint: &[u8; 32],
    token_mint_authority: &[u8; 32],
    user_token_ata: &[u8; 32],
    authority_signer_seeds: Vec<Vec<u8>>,
    mint_amount: u64,
) -> (plan: TokenPlan)
    ensures
        plan@ == mint_plan(
            *token_program,
            *token_mint,
            *token_mint_authority,
            *user_token_ata,
            authority_signer_seeds.deep_view(),
            mint_amount,
        ),
        targets_only_token_programs(plan@.0),
        plan@.0.len() == (if token_program@ == spl_token_key() { 1int } else { 0int }),
        plan@.1 == (if token_program@ == spl_token_key() { Ok::<(), LendingError>(()) } else { Err(LendingError::InvalidTokenProgram) }),
        plan@.2 == (if token_program@ == spl_token_key() { None::<[u8; 32]> } else { Some(*token_program) }),
        plan@.0.len() == 1 ==> plan@.0[0] == (*token_program, TokenInstruction::MintTo { mint: *token_mint, to: *user_token_ata, authority: *token_mint_authority, amount: mint_amount }, seq![authority_signer_seeds.deep_view()]),
{
    let checked = validate_spl_token_program(token_program);
    single_call(
        checked,
        *token_program,
        TokenInstruction::MintTo {
            mint: *token_mint,
            to: *user_token_ata,
            authority: *token_mint_authority,
            amount: mint_amount,
        },
        single_signer(authority_signer_seeds),
    )
}

/// Burns `burn_amount` of `token_mint` from `user_token_ata` (`burn`,
/// authorised by `user`, without signer seeds), once the program is SPL Token;
/// Token-2022 is refused here.
pub fn burn(
    token_mint: &[u8; 32],
    user_token_ata: &[u8; 32],
    user: &[u8; 32],
    token_program: &[u8; 32],
    burn_amount: u64,
) -> (plan: TokenPlan)
    ensures
        plan@ == checked_call(
            is_spl_token_program(token_program@),
            (
                *token_program,
                TokenInstruction::Burn { mint: *token_mint, from: *user_token_ata, authority: *user, amount: burn_amount },
                Seq::<Seq<Seq<u8>>>::empty(),
            ),
        ),
        targets_only_token_programs(plan@.0),
        plan@.0.len() == (if token_program@ == spl_token_key() { 1int } else { 0int }),
        plan@.1 == (if token_program@ == spl_token_key() { Ok::<(), LendingError>(()) } else { Err(LendingError::InvalidTokenProgram) }),
        plan@.2 == (if token_program@ == spl_token_key() { None::<[u8; 32]> } else { Some(*token_program) }),
        plan@.0.len() == 1 ==> plan@.0[0] == (*token_program, TokenInstruction::Burn { mint: *token_mint, from: *user_token_ata, authority: *user, amount: burn_amount }, Seq::<Seq<Seq<u8>>>::empty()),
{
    let checked = validate_spl_token_program(token_program);
    single_call(
        checked,
        *token_program,
        TokenInstruction::Burn { mint: *token_mint, from: *user_token_ata, authority: *user, amount: burn_amount },
        no_signers(),
    )
}

/// Burns `burn_amount` of `token_mint` from `token_ata` (`burn`, authorised by
/// the program-derived `authority`, with the signer seeds exactly as given),
/// once the program is SPL Token; Token-2022 is refused here.
pub fn burn_with_signer(
    token_mint: &[u8; 32],
    token_ata: &[u8; 32],
    authority: &[u8; 32],
    token_program: &[u8; 32],
    burn_amount: u64,
    authority_signer_seeds: Vec<Vec<Vec<u8>>>,
) -> (plan: TokenPlan)
    ensures
        plan@ == checked_call(
            is_spl_token_program(token_program@),
            (
                *token_program,
                TokenInstruction::Burn { mint: *token_mint, from: *token_ata, authority: *authority, amount: burn_amount },
                authority_signer_seeds.deep_view(),
            ),
        ),
        targets_only_token_programs(plan@.0),
        plan@.0.len() == (if token_program@ == spl_token_key() { 1int } else { 0int }),
        plan@.1 == (if token_program@ == spl_token_key() { Ok::<(), LendingError>(()) } else { Err(LendingError::InvalidTokenProgram) }),
        plan@.2 == (if token_program@ == spl_token_key() { None::<[u8; 32]> } else { Some(*token_program) }),
        plan@.0.len() == 1 ==> plan@.0[0] == (*token_program, TokenInstruction::Burn { mint: *token_mint, from: *token_ata, authority: *authority, amount: burn_amount }, authority_signer_seeds.deep_view()),
{
    let checked = validate_spl_token_program(token_program);
    single_call(
        checked,
        *token_program,
        TokenInstruction::Burn { mint: *token_mint, from: *token_ata, authority: *authority, amount: burn_amount },
        authority_signer_seeds,
    )
}

/// Moves deposited liquidity from `source_liquidity_deposit` to
/// `destination_liquidity_deposit` (`transfer_checked` of `liquidity_mint`,
/// authorised by `user_authority`, without signer seeds) and mints the
/// collateral for it into `destination_collateral` as [`mint`] does. Both
/// programs must be SPL Token or Token-2022 before anything is invoked; the
/// collateral program must moreover be SPL Token for the mint, a check made
/// only after the liquidity has moved.
pub fn deposit_reserve_liquidity_transfer(
    source_liquidity_deposit: &[u8; 32],
    destination_liquidity_deposit: &[u8; 32],
    user_authority: &[u8; 32],
    liquidity_mint: &[u8; 32],
    liquidity_token_program: &[u8; 32],
    collateral_mint: &[u8; 32],
    collateral_token_program: &[u8; 32],
    destination_collateral: &[u8; 32],
    mint_authority: &[u8; 32],
    authority_signer_seeds: Vec<Vec<u8>>,
    liquidity_deposit_amount: u64,
    liquidity_decimals: u8,
    collateral_mint_amount: u64,
) -> (plan: TokenPlan)
    ensures
        plan@ == deposit_reserve_liquidity_plan(
            *source_liquidity_deposit,
            *destination_liquidity_deposit,
            *user_authority,
            *liquidity_mint,
            *liquidity_token_program,
            *collateral_mint,
            *collateral_token_program,
            *destination_collateral,
            *mint_authority,
            authority_signer_seeds.deep_view(),
            liquidity_deposit_amount,
            liquidity_decimals,
            collateral_mint_amount,
        ),
        targets_only_token_programs(plan@.0),
        !(liquidity_token_program@ == spl_token_key() || liquidity_token_program@ == token_2022_key()) ==> plan@.0.len() == 0 && plan@.1 == Err::<(), LendingError>(LendingError::InvalidTokenProgram)
            && plan@.2 == Some(*liquidity_token_program),
        (liquidity_token_program@ == spl_token_key() || liquidity_token_program@ == token_2022_key()) && !(collateral_token_program@ == spl_token_key() || collateral_token_program@ == token_2022_key()) ==> plan@.0.len() == 0 && plan@.1 == Err::<(), LendingError>(LendingError::InvalidTokenProgram)
            && plan@.2 == Some(*collateral_token_program),
        (liquidity_token_program@ == spl_token_key() || liquidity_token_program@ == token_2022_key()) && (collateral_token_program@ == spl_token_key() || collateral_token_program@ == token_2022_key()) ==> plan@.0.len() == (if collateral_token_program@ == spl_token_key() { 2int } else { 1int }) && plan@.0[0] == (
            *liquidity_token_program,
            TokenInstruction::TransferChecked { from: *source_liquidity_deposit, to: *destination_liquidity_deposit, authority: *user_authority, mint: *liquidity_mint, amount: liquidity_deposit_amount, decimals: liquidity_decimals },
            Seq::<Seq<Seq<u8>>>::empty(),
        ),
        (liquidity_token_program@ == spl_token_key() || liquidity_token_program@ == token_2022_key()) && (collateral_token_program@ == spl_token_key() || collateral_token_program@ == token_2022_key()) && collateral_token_program@ == spl_token_key() ==> plan@.1 == Ok::<(), LendingError>(()) && plan@.2 == None::<[u8; 32]>
            && plan@.0[1] == (
            *collateral_token_program,
            TokenInstruction::MintTo { mint: *collateral_mint, to: *destination_collateral, authority: *mint_authority, amount: collateral_mint_amount },
            seq![authority_signer_seeds.deep_view()],
        ),
        (liquidity_token_program@ == spl_token_key() || liquidity_token_program@ == token_2022_key()) && (collateral_token_program@ == spl_token_key() || collateral_token_program@ == token_2022_key()) && !(collateral_token_program@ == spl_token_key()) ==> plan@.1 == Err::<(), LendingError>(LendingError::InvalidTokenProgram) && plan@.2 == Some(*collateral_token_program),
{
    if validate_token_program(liquidity_token_program).is_err() {
        let plan = TokenPlan {
            calls: Vec::new(),
            outcome: Err(LendingError::InvalidTokenProgram),
            rejected_program: Some(*liquidity_token_program),
        };
        assert(plan@.0 =~= Seq::<CpiView>::empty());
        return plan;
    }
    if validate_token_program(collateral_token_program).is_err() {
        let plan = TokenPlan {
            calls: Vec::new(),
            outcome: Err(LendingError::InvalidTokenProgram),
            rejected_program: Some(*collateral_token_program),
        };
        assert(plan@.0 =~= Seq::<CpiView>::empty());
        return plan;
    }
    let transfer = TokenCpi {
        program: *liquidity_token_program,
        instruction: TokenInstruction::TransferChecked {
            from: *source_liquidity_deposit,
            to: *destination_liquidity_deposit,
            authority: *user_authority,
            mint: *liquidity_mint,
            amount: liquidity_deposit_amount,
            decimals: liquidity_decimals,
        },
        signers: no_signers(),
    };
    let ghost transfer_view = transfer@;
    let minted = mint(
        collateral_token_program,
        collateral_mint,
        mint_authority,
        destination_collateral,
        authority_signer_seeds,
        collateral_mint_amount,
    );
    let ghost minted_view = minted@;
    let mut calls: Vec<TokenCpi> = Vec::new();
    calls.push(transfer);
    let TokenPlan { calls: mut rest, outcome, rejected_program } = minted;
    let ghost first = calls@;
    let ghost second = rest@;
    calls.append(&mut rest);
    assert(calls@ == first + second);
    assert(calls@.map_values(|c: TokenCpi| c@) =~= seq![transfer_view] + minted_view.0);
    TokenPlan { calls, outcome, rejected_program }
}

/// A plan's result once it was run: an invocation failed, or the plan's own
/// outcome was an error.
#[derive(Debug)]
pub enum RunError<E> {
    /// The invocation made returned this error; nothing after it was invoked.
    Invocation(E),
    /// Every invocation succeeded and the plan's outcome is this error.
    Rejected(LendingError),
}

/// The result of running a plan whose invocations returned `results` (in
/// order, up to and including the first failure): the first failure, if any;
/// else the plan's outcome.
pub open spec fn run_outcome<E>(outcome: Result<(), LendingError>, results: Seq<Result<(), E>>) -> Result<
    (),
    RunError<E>,
>
    decreases results.len(),
{
    if results.len() == 0 {
        match outcome {
            Ok(()) => Ok(()),
            Err(e) => Err(RunError::Rejected(e)),
        }
    } else {
        match results[0] {
            Err(e) => Err(RunError::Invocation(e)),
            Ok(()) => run_outcome(outcome, results.drop_first()),
        }
    }
}

/// Settles a plan that was run: `results` are what its invocations returned,
/// in order. The first failure is the result; when there is none, the plan's
/// outcome is.
pub fn plan_outcome<E>(outcome: Result<(), LendingError>, results: Vec<Result<(), E>>) -> (r: Result<(), RunError<E>>)
    ensures
        r == run_outcome(outcome, results@),
        (forall|i: int| 0 <= i < results@.len() ==> (#[trigger] results@[i]) is Ok) ==> r == (match outcome {
            Ok(()) => Ok::<(), RunError<E>>(()),
            Err(e) => Err(RunError::Rejected(e)),
        }),
        forall|i: int|
            0 <= i < results@.len() && (#[trigger] results@[i]) is Err && (forall|j: int|
                0 <= j < i ==> (#[trigger] results@[j]) is Ok) ==> r == Err::<(), RunError<E>>(
                RunError::Invocation(results@[i]->Err_0),
            ),
        r is Ok ==> outcome is Ok && (forall|i: int| 0 <= i < results@.len() ==> (#[trigger] results@[i]) is Ok),
        outcome is Err ==> r is Err,
{
    proof {
        lemma_run_outcome(outcome, results@);
    }
    let ghost original = results@;
    let mut pending = results;
    while pending.len() > 0
        invariant
            original == results@,
            run_outcome(outcome, pending@) == run_outcome(outcome, original),
        decreases pending.len(),
    {
        let ghost before = pending@;
        let first = pending.remove(0);
        assert(pending@ =~= before.drop_first());
        assert(before[0] == first);
        match first {
            Err(e) => {
                assert(run_outcome(outcome, original) == Err::<(), RunError<E>>(RunError::Invocation(e)));
                proof {
                    lemma_run_outcome(outcome, original);
                }
                return Err(RunError::Invocation(e));
            },
            Ok(()) => {},
        }
    }
    match outcome {
        Ok(()) => Ok(()),
        Err(e) => Err(RunError::Rejected(e)),
    }
}

/// Settling a run plan: when every invocation succeeded (in particular when
/// none was made) the result is the plan's own outcome; otherwise it is the
/// error of the first invocation that failed. A run settles to `Ok` only when
/// every invocation and the plan itself succeeded.
pub proof fn lemma_run_outcome<E>(outcome: Result<(), LendingError>, results: Seq<Result<(), E>>)
    ensures
        (forall|i: int| 0 <= i < results.len() ==> (#[trigger] results[i]) is Ok) ==> run_outcome(outcome, results)
            == (match outcome {
            Ok(()) => Ok::<(), RunError<E>>(()),
            Err(e) => Err(RunError::Rejected(e)),
        }),
        forall|i: int|
            0 <= i < results.len() && (#[trigger] results[i]) is Err && (forall|j: int|
                0 <= j < i ==> (#[trigger] results[j]) is Ok) ==> run_outcome(outcome, results) == Err::<
                (),
                RunError<E>,
            >(RunError::Invocation(results[i]->Err_0)),
        run_outcome(outcome, results) is Ok ==> outcome is Ok && (forall|i: int|
            0 <= i < results.len() ==> (#[trigger] results[i]) is Ok),
    decreases results.len(),
{
    if results.len() > 0 {
        let rest = results.drop_first();
        lemma_run_outcome(outcome, rest);
        assert forall|i: int| 0 <= i < results.len() && (#[trigger] results[i]) is Err && (forall|j: int|
            0 <= j < i ==> (#[trigger] results[j]) is Ok) implies run_outcome(outcome, results) == Err::<
            (),
            RunError<E>,
        >(RunError::Invocation(results[i]->Err_0)) by {
            if i > 0 {
                assert(results[0] is Ok);
                assert(rest[i - 1] == results[i]);
                assert forall|j: int| 0 <= j < i - 1 implies (#[trigger] rest[j]) is Ok by {
                    assert(rest[j] == results[j + 1]);
                }
            }
        }
        if (forall|i: int| 0 <= i < results.len() ==> (#[trigger] results[i]) is Ok) {
            assert(results[0] is Ok);
            assert forall|i: int| 0 <= i < rest.len() implies (#[trigger] rest[i]) is Ok by {
                assert(rest[i] == results[i + 1]);
            }
        }
        if run_outcome(outcome, results) is Ok {
            assert(results[0] is Ok);
            assert forall|i: int| 0 <= i < results.len() implies (#[trigger] results[i]) is Ok by {
                if i > 0 {
                    assert(results[i] == rest[i - 1]);
                }
            }
        }
    }
}

/// The signer list of one signer holds that signer's seeds, every one of them,
/// unchanged and in order.
pub proof fn lemma_one_signer_keeps_seeds(seeds: Seq<Seq<u8>>)
    ensures
        one_signer(seeds).len() == 1,
        one_signer(seeds)[0] == seeds,
        one_signer(seeds)[0].len() == seeds.len(),
{
}

/// The invocation that `mint` plans, when SPL Token is the program, mints
/// exactly the requested amount of the given mint into the given account,
/// authorised by the given authority with its seeds as one signer; any other
/// program gets no invocation.
pub proof fn lemma_mint_plan_mints_requested(
    token_program: [u8; 32],
    token_mint: [u8; 32],
    token_mint_authority: [u8; 32],
    user_token_ata: [u8; 32],
    authority_signer_seeds: Seq<Seq<u8>>,
    mint_amount: u64,
)
    ensures
        ({
            let p = mint_plan(
                token_program,
                token_mint,
                token_mint_authority,
                user_token_ata,
                authority_signer_seeds,
                mint_amount,
            );
            &&& token_program@ == spl_token_key() ==> p.0.len() == 1 && p.0[0] == (
                token_program,
                TokenInstruction::MintTo {
                    mint: token_mint,
                    to: user_token_ata,
                    authority: token_mint_authority,
                    amount: mint_amount,
                },
                seq![authority_signer_seeds],
            ) && p.1 is Ok
            &&& token_program@ != spl_token_key() ==> p.0.len() == 0 && p.1 is Err
        }),
{
}

/// When both programs pass, the reserve deposit first moves exactly the
/// requested liquidity amount, with the mint's decimals as given, from the
/// source deposit account to the destination, without signer seeds; and it
/// mints collateral only after that transfer.
pub proof fn lemma_deposit_reserve_plan_transfers_first(
    source_liquidity_deposit: [u8; 32],
    destination_liquidity_deposit: [u8; 32],
    user_authority: [u8; 32],
    liquidity_mint: [u8; 32],
    liquidity_token_program: [u8; 32],
    collateral_mint: [u8; 32],
    collateral_token_program: [u8; 32],
    destination_collateral: [u8; 32],
    mint_authority: [u8; 32],
    authority_signer_seeds: Seq<Seq<u8>>,
    liquidity_deposit_amount: u64,
    liquidity_decimals: u8,
    collateral_mint_amount: u64,
)
    requires
        liquidity_token_program@ == spl_token_key() || liquidity_token_program@ == token_2022_key(),
        collateral_token_program@ == spl_token_key() || collateral_token_program@ == token_2022_key(),
    ensures
        ({
            let p = deposit_reserve_liquidity_plan(
                source_liquidity_deposit,
                destination_liquidity_deposit,
                user_authority,
                liquidity_mint,
                liquidity_token_program,
                collateral_mint,
                collateral_token_program,
                destination_collateral,
                mint_authority,
                authority_signer_seeds,
                liquidity_deposit_amount,
                liquidity_decimals,
                collateral_mint_amount,
            );
            &&& p.0.len() >= 1
            &&& p.0[0] == (
                liquidity_token_program,
                TokenInstruction::TransferChecked {
                    from: source_liquidity_deposit,
                    to: destination_liquidity_deposit,
                    authority: user_authority,
                    mint: liquidity_mint,
                    amount: liquidity_deposit_amount,
                    decimals: liquidity_decimals,
                },
                Seq::<Seq<Seq<u8>>>::empty(),
            )
            &&& forall|i: int| 1 <= i < p.0.len() ==> (#[trigger] p.0[i]).1 is MintTo
        }),
{
}

/// Every invocation made so far succeeded.
pub open spec fn all_succeeded<E>(results: Seq<Result<(), E>>) -> bool {
    forall|i: int| 0 <= i < results.len() ==> (#[trigger] results[i]) is Ok
}

/// Which invocation of a plan of `n_calls` calls to make next, given what the
/// ones made so far returned: the next in order while every one so far
/// succeeded, and none once one failed or all were made.
pub fn next_invocation<E>(n_calls: usize, results: &Vec<Result<(), E>>) -> (next: Option<usize>)
    ensures
        next == (if results.len() < n_calls && all_succeeded(results@) {
            Some(results.len())
        } else {
            None
        }),
        next is Some ==> next == Some(results.len()) && results.len() < n_calls,
        next is Some ==> forall|i: int| 0 <= i < results@.len() ==> (#[trigger] results@[i]) is Ok,
        (results.len() < n_calls && forall|i: int| 0 <= i < results@.len() ==> (#[trigger] results@[i]) is Ok)
            ==> next == Some(results.len()),
{
    if results.len() >= n_calls {
        return None;
    }
    let mut i: usize = 0;
    while i < results.len()
        invariant
            i <= results.len(),
            forall|j: int| 0 <= j < i ==> (#[trigger] results@[j]) is Ok,
        decreases results.len() - i,
    {
        if results[i].is_err() {
            assert(!all_succeeded(results@));
            return None;
        }
        i += 1;
    }
    Some(results.len())
}

/// A program that fails validation is never invoked by a plan whose calls
/// target only token programs, and no program other than SPL Token ever mints
/// or burns.
pub proof fn lemma_rejected_program_never_invoked(calls: Seq<CpiView>, key: Seq<u8>, i: int)
    requires
        targets_only_token_programs(calls),
        0 <= i < calls.len(),
    ensures
        !is_token_program(key) ==> calls[i].0@ != key,
        (calls[i].1 is MintTo || calls[i].1 is Burn) ==> calls[i].0@ == spl_token_key(),
{
}

} // verus!
