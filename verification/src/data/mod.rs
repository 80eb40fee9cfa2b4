//! Storage: the repository contract, its in-memory and store-backed sides,
//! and the migration runner's decisions.

pub mod memory_repository;
pub mod repository;
pub mod todo_repository;

use vstd::prelude::*;

verus! {

/// What happened to the migration the runner last asked for.
#[derive(Debug, Clone, Copy, PartialEq, Eq, Structural)]
pub enum MigrationEvent {
    /// Nothing has been asked for yet.
    Started,
    /// The migration was applied and the store's ledger records it.
    Applied,
    /// The migration could not be applied; the store rolled it back.
    Failed,
}

/// What the runner asks for next.
#[derive(Debug, Clone, Copy, PartialEq, Eq, Structural)]
pub enum MigrationStep {
    /// Apply the authored migration at this position, then report back.
    Apply(usize),
    /// Every authored migration is in the ledger: nothing is left to do.
    Finished,
    /// The last migration failed: start-up must stop.
    Aborted,
}

/// Whether the ledger `applied` records `version`.
pub open spec fn is_applied(applied: Seq<String>, version: String) -> bool {
    exists|k: int| 0 <= k < applied.len() && #[trigger] applied[k]@ == version@
}

/// The step that follows from the authored migrations, the ledger and the
/// last event: abort after a failure; otherwise apply the first authored
/// migration that the ledger lacks, or finish when it lacks none.
pub open spec fn next_step(
    authored: Seq<String>,
    applied: Seq<String>,
    event: MigrationEvent,
    step: MigrationStep,
) -> bool {
    match step {
        MigrationStep::Aborted => event == MigrationEvent::Failed,
        MigrationStep::Apply(position) => {
            &&& event != MigrationEvent::Failed
            &&& position < authored.len()
            &&& !is_applied(applied, authored[position as int])
            &&& forall|j: int| 0 <= j < position ==> is_applied(applied, #[trigger] authored[j])
        },
        MigrationStep::Finished => {
            &&& event != MigrationEvent::Failed
            &&& forall|j: int| 0 <= j < authored.len() ==> is_applied(applied, #[trigger] authored[j])
        },
    }
}

/// Whether the ledger records `version`.
fn ledger_records(applied: &Vec<String>, version: &String) -> (recorded: bool)
    ensures
        recorded == is_applied(applied@, *version),
{
    let mut k: usize = 0;
    while k < applied.len()
        invariant
            k <= applied@.len(),
            forall|m: int| 0 <= m < k ==> applied@[m]@ != version@,
        decreases applied@.len() - k,
    {
        if applied[k] == *version {
            return true;
        }
        k += 1;
    }
    false
}

/// Decides the runner's next step.
///
/// `authored` holds the versions of the migrations in the order they were
/// written, `applied` the versions in the store's ledger as it stands now,
/// and `event` what became of the step asked for before. The caller applies
/// what is asked, reads the ledger again and comes back, until the answer is
/// `Finished` or `Aborted`. A migration in the ledger is never asked for
/// again, so a run with nothing pending finishes at once.
pub fn run_migrations(authored: &Vec<String>, applied: &Vec<String>, event: MigrationEvent) -> (step:
    MigrationStep)
    ensures
        next_step(authored@, applied@, event, step),
{
    if event == MigrationEvent::Failed {
        return MigrationStep::Aborted;
    }
    let mut position: usize = 0;
    while position < authored.len()
        invariant
            event != MigrationEvent::Failed,
            position <= authored@.len(),
            forall|j: int| 0 <= j < position ==> is_applied(applied@, #[trigger] authored@[j]),
        decreases authored@.len() - position,
    {
        if !ledger_records(applied, &authored[position]) {
            return MigrationStep::Apply(position);
        }
        position += 1;
    }
    MigrationStep::Finished
}

/// The decision is a function of its inputs: two steps that both follow
/// from the same migrations, ledger and event are the same step.
pub proof fn lemma_next_step_is_unique(
    authored: Seq<String>,
    applied: Seq<String>,
    event: MigrationEvent,
    first: MigrationStep,
    second: MigrationStep,
)
    requires
        next_step(authored, applied, event, first),
        next_step(authored, applied, event, second),
    ensures
        first == second,
{
}

/// Once the migration that was asked for is in the ledger, the runner moves
/// on: it asks for a later one or finishes, and never for the same again.
pub proof fn lemma_runner_advances(
    authored: Seq<String>,
    applied: Seq<String>,
    event: MigrationEvent,
    position: usize,
    later: Seq<String>,
    next: MigrationStep,
)
    requires
        next_step(authored, applied, event, MigrationStep::Apply(position)),
        later == applied.push(authored[position as int]),
        next_step(authored, later, MigrationEvent::Applied, next),
    ensures
        next is Finished || (next matches MigrationStep::Apply(following) && following > position),
{
    assert(later[later.len() - 1]@ == authored[position as int]@);
    assert(is_applied(later, authored[position as int]));
    if let MigrationStep::Apply(following) = next {
        if following < position {
            let version = authored[following as int];
            assert(is_applied(applied, version));
            let k = choose|k: int| 0 <= k < applied.len() && #[trigger] applied[k]@ == version@;
            assert(later[k]@ == version@);
        }
    }
}

} // verus!
