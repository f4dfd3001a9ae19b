//! The runtime's types that an invocation is called with.
//!
//! They are declared without their contents: the handler never looks inside
//! one, so nothing is claimed about what a value of them holds.

use vstd::prelude::*;

verus! {

/// `solana_program::pubkey::Pubkey`, the address of an account or a program.
#[verifier::external_type_specification]
#[verifier::external_body]
pub struct ExPubkey(solana_program::pubkey::Pubkey);

/// `solana_program::account_info::AccountInfo`, the runtime's handle to one
/// of the accounts passed to an instruction.
#[verifier::external_type_specification]
#[verifier::external_body]
pub struct ExAccountInfo<'a>(solana_program::account_info::AccountInfo<'a>);

/// `solana_program::program_error::ProgramError`, the failure a program may
/// report to the runtime.
#[verifier::external_type_specification]
#[verifier::external_body]
pub struct ExProgramError(solana_program::program_error::ProgramError);

} // verus!
