# klend_guard

Token-program checks and fixed-point rate arithmetic for a Solana lending
market, verified with Verus.

- `src/token_program.rs`: which programs a token cross-program invocation may
  target (SPL Token or Token-2022; SPL Token alone for minting and burning).
- `src/transfer.rs`: each token transfer of the market as a plan of the
  invocations it makes (program, accounts, amount, signer seeds), each
  invocation made only after its program passed the checks it needs, and how
  the result of running a plan is settled.
- `src/fraction.rs`: the `Fraction` rate type (value times `10^18`) and its
  laws (multiplying by 1.0, monotonicity, the referral-fee bound, the
  net-new-debt underflow condition).
- `app/`: the same transfers over Anchor `AccountInfo`s, performing the
  invocations that the library plans, and a walk-through of the rate
  arithmetic.
