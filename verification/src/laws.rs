//! What holds of every invocation, and of every run of them.

use crate::handler::{effect_of, Invocation, GREETING};
use vstd::prelude::*;

verus! {

/// The host's log once it has carried out a run of invocations in order,
/// given what it held before the first of them.
pub open spec fn log_after(before: Seq<Seq<char>>, run: Seq<Invocation>) -> Seq<Seq<char>>
    decreases run.len(),
{
    if run.len() == 0 {
        before
    } else {
        log_after(before, run.drop_last()) + effect_of(run.last()).log
    }
}

/// The handler is stateless: any two invocations, with the same inputs or
/// with different ones, ask exactly the same of the host.
pub proof fn lemma_invocations_agree(first: Invocation, second: Invocation)
    ensures
        effect_of(first) == effect_of(second),
{
}

/// A run of invocations, whatever their inputs, leaves the earlier records
/// of the host's log as they were and adds one greeting per call, nothing
/// else; and every call in it reports success.
pub proof fn lemma_run_logs_one_greeting_per_call(before: Seq<Seq<char>>, run: Seq<Invocation>)
    ensures
        log_after(before, run) == before + Seq::new(run.len(), |i: int| GREETING@),
        forall|i: int| 0 <= i < run.len() ==> (#[trigger] effect_of(run[i])).success,
    decreases run.len(),
{
    if run.len() > 0 {
        lemma_run_logs_one_greeting_per_call(before, run.drop_last());
    }
    assert(log_after(before, run) =~= before + Seq::new(run.len(), |i: int| GREETING@));
}

} // verus!
