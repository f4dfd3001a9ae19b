//! The entrypoint handler, and the model its contract is stated over.

use solana_program::account_info::AccountInfo;
use solana_program::program_error::ProgramError;
use solana_program::pubkey::Pubkey;
use vstd::prelude::*;

verus! {

/// The line that every invocation writes to the host's log.
pub const GREETING: &'static str = "Hello from my first Solana program!";

/// The inputs that the host hands to one invocation.
pub struct Invocation<'a> {
    /// The address the program was loaded at.
    pub program_id: Pubkey,
    /// The accounts passed with the instruction, in the caller's order.
    pub accounts: Seq<AccountInfo<'a>>,
    /// The instruction's payload.
    pub instruction_data: Seq<u8>,
}

/// What an invocation asks of the host, as mathematical values.
pub struct Effect {
    /// The records to write to the host's log, in this order.
    pub log: Seq<Seq<char>>,
    /// Whether success is reported.
    pub success: bool,
}

/// What the program asks of the host when it is invoked with `invocation`:
/// one greeting in the log and a report of success. No input has a say in it.
pub open spec fn effect_of(invocation: Invocation) -> Effect {
    Effect { log: seq![GREETING@], success: true }
}

/// What one invocation asks of the host.
#[derive(Debug, PartialEq, Eq)]
pub struct Outcome {
    /// The records to write to the host's log, in this order.
    pub log: Vec<&'static str>,
    /// The result to report to the host.
    pub result: Result<(), ProgramError>,
}

impl View for Outcome {
    type V = Effect;

    open spec fn view(&self) -> Effect {
        Effect {
            log: self.log@.map_values(|line: &'static str| line@),
            success: self.result is Ok,
        }
    }
}

/// Handles one invocation of the program. The three inputs are not looked
/// at: the host is asked to log the greeting, once, and is told of success.
pub fn process_instruction(
    program_id: &Pubkey,
    accounts: &[AccountInfo],
    instruction_data: &[u8],
) -> (outcome: Outcome)
    ensures
        outcome.result is Ok,
        outcome.log@.len() == 1,
        outcome.log@[0]@ == GREETING@,
        outcome@ == effect_of(
            (Invocation {
                program_id: *program_id,
                accounts: accounts@,
                instruction_data: instruction_data@,
            }),
        ),
{
    let mut log: Vec<&'static str> = Vec::new();
    log.push(GREETING);
    let outcome = Outcome { log, result: Ok(()) };
    assert(outcome@.log =~= seq![GREETING@]);
    outcome
}

} // verus!
