//! Checks and arithmetic used around token transfers of a lending market:
//! which token programs a cross-program invocation may target, what each
//! transfer helper asks the token program to do, and the fixed-point
//! `Fraction` used for interest and fee rates.

pub mod fraction;
pub mod token_program;
pub mod transfer;
