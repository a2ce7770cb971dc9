//! What holds of every assembly of partial components, whatever happens on the way.

use crate::config::{Configuration, HeapAllocStrategy};
use crate::partial::{
    PartialAction, PartialBuild, PartialComponents, PartialPlan, PartialProgress,
};
use crate::step::Step;
use vstd::prelude::*;

verus! {

/// Where an assembly stands after a series of outcomes.
pub open spec fn partial_after<M, Q, E>(
    config: Configuration<M>,
    import_queue: Q,
    outcomes: Seq<Result<(), E>>,
) -> Step<PartialProgress<M, Q>, PartialAction<M, Q>, Result<PartialComponents, E>>
    decreases outcomes.len(),
{
    if outcomes.len() == 0 {
        Step::Continue(
            PartialProgress { plan: PartialPlan::of(config, import_queue), done: 0 },
            crate::partial::partial_sequence(config, import_queue)[0],
        )
    } else {
        match partial_after(config, import_queue, outcomes.drop_last()) {
            Step::Continue(progress, _) => progress.after(outcomes.last()),
            Step::Return(result) => Step::Return(result),
        }
    }
}

/// The actions that an assembly asks for over a series of outcomes.
pub open spec fn partial_trace<M, Q, E>(
    config: Configuration<M>,
    import_queue: Q,
    outcomes: Seq<Result<(), E>>,
) -> Seq<PartialAction<M, Q>>
    decreases outcomes.len(),
{
    let earlier = if outcomes.len() == 0 {
        seq![]
    } else {
        partial_trace(config, import_queue, outcomes.drop_last())
    };
    match partial_after(config, import_queue, outcomes) {
        Step::Continue(_, action) => earlier.push(action),
        Step::Return(_) => earlier,
    }
}

/// An assembly in which nothing fails performs its actions from the first one on, each once and
/// in order, and hands out the components when the last one is done.
pub proof fn lemma_assembly_follows_sequence<M, Q, E>(
    config: Configuration<M>,
    import_queue: Q,
    outcomes: Seq<Result<(), E>>,
)
    requires
        forall|i: int| 0 <= i < outcomes.len() ==> #[trigger] outcomes[i] is Ok,
        outcomes.len() <= crate::partial::partial_sequence(config, import_queue).len(),
    ensures
        ({
            let plan = PartialPlan::of(config, import_queue);
            let sequence = crate::partial::partial_sequence(config, import_queue);
            let trace = partial_trace(config, import_queue, outcomes);
            let now = partial_after(config, import_queue, outcomes);
            &&& outcomes.len() < sequence.len() ==> {
                &&& trace == sequence.take((outcomes.len() + 1) as int)
                &&& now matches Step::Continue(progress, action)
                &&& progress == (PartialProgress { plan, done: outcomes.len() })
                &&& action == sequence[outcomes.len() as int]
            }
            &&& outcomes.len() == sequence.len() ==> {
                &&& trace == sequence
                &&& now matches Step::Return(Ok(components))
                &&& components.telemetry == plan.telemetry
            }
        }),
    decreases outcomes.len(),
{
    let sequence = crate::partial::partial_sequence(config, import_queue);
    if outcomes.len() == 0 {
        assert(partial_trace(config, import_queue, outcomes) =~= sequence.take(1));
    } else {
        let before = outcomes.drop_last();
        lemma_assembly_follows_sequence(config, import_queue, before);
        assert(outcomes[outcomes.len() - 1] is Ok);
        assert(partial_after(config, import_queue, before) is Continue);
        if outcomes.len() < sequence.len() {
            assert(partial_trace(config, import_queue, outcomes) =~= sequence.take(
                (outcomes.len() + 1) as int,
            ));
        } else {
            assert(partial_trace(config, import_queue, outcomes) =~= sequence);
        }
    }
}

/// An assembly that has returned does nothing more, whatever comes.
pub proof fn lemma_return_is_final<M, Q, E>(
    config: Configuration<M>,
    import_queue: Q,
    outcomes: Seq<Result<(), E>>,
    more: Seq<Result<(), E>>,
)
    requires
        partial_after(config, import_queue, outcomes) is Return,
    ensures
        partial_after(config, import_queue, outcomes + more) == partial_after(
            config,
            import_queue,
            outcomes,
        ),
        partial_trace(config, import_queue, outcomes + more) == partial_trace(
            config,
            import_queue,
            outcomes,
        ),
    decreases more.len(),
{
    if more.len() == 0 {
        assert(outcomes + more =~= outcomes);
    } else {
        lemma_return_is_final(config, import_queue, outcomes, more.drop_last());
        assert((outcomes + more).drop_last() =~= outcomes + more.drop_last());
    }
}

/// The first failure ends an assembly: its error is returned as it is, and nothing is asked for
/// after the action that failed, whatever comes.
pub proof fn lemma_failure_ends_assembly<M, Q, E>(
    config: Configuration<M>,
    import_queue: Q,
    outcomes: Seq<Result<(), E>>,
    error: E,
    more: Seq<Result<(), E>>,
)
    requires
        partial_after(config, import_queue, outcomes) is Continue,
    ensures
        ({
            let all = outcomes.push(Err(error)) + more;
            &&& partial_after(config, import_queue, all) == Step::<
                PartialProgress<M, Q>,
                PartialAction<M, Q>,
                Result<PartialComponents, E>,
            >::Return(Err(error))
            &&& partial_trace(config, import_queue, all) == partial_trace(
                config,
                import_queue,
                outcomes,
            )
        }),
{
    let failed = outcomes.push(Err(error));
    assert(failed.drop_last() =~= outcomes);
    lemma_return_is_final(config, import_queue, failed, more);
}

/// Telemetry is started first and its worker spawned later, both if and only if there is an
/// endpoint to report to; the import queue is built last.
pub proof fn lemma_assembly_order<M, Q>(config: Configuration<M>, import_queue: Q)
    ensures
        ({
            let sequence = crate::partial::partial_sequence(config, import_queue);
            let telemetry = crate::config::wants_telemetry(config.telemetry_endpoints);
            &&& sequence.len() == if telemetry {
                6nat
            } else {
                4nat
            }
            &&& forall|i: int|
                #![trigger sequence[i]]
                0 <= i < sequence.len() ==> {
                    &&& sequence[i] is StartTelemetry <==> telemetry && i == 0
                    &&& sequence[i] is SpawnTask <==> telemetry && i == 2
                    &&& sequence[i] is BuildImportQueue <==> i == sequence.len() - 1
                }
        }),
{
}

/// Whatever the outcomes, the actions of an assembly carry what was configured. Telemetry is
/// started with all endpoints, and there is telemetry in the parts and in the import queue if and
/// only if there is an endpoint. The executor runs as configured, imports are recorded, and the
/// transaction pool is a validator's if and only if the node is an authority. The import queue is
/// the one that was asked for.
pub proof fn lemma_actions_carry_the_configuration<M, Q, E>(
    config: Configuration<M>,
    import_queue: Q,
    outcomes: Seq<Result<(), E>>,
)
    ensures
        forall|i: int|
            #![trigger partial_trace(config, import_queue, outcomes)[i]]
            0 <= i < partial_trace(config, import_queue, outcomes).len() ==> {
                let reports = config.telemetry_endpoints matches Some(list) && list@.len() > 0;
                match partial_trace(config, import_queue, outcomes)[i] {
                    PartialAction::StartTelemetry { buffer_size, endpoints } => {
                        &&& buffer_size == 16
                        &&& config.telemetry_endpoints == Some(endpoints)
                        &&& endpoints@.len() > 0
                    },
                    PartialAction::BuildFullParts {
                        executor,
                        telemetry,
                        enable_import_proof_recording,
                    } => {
                        &&& telemetry == reports
                        &&& enable_import_proof_recording
                        &&& executor.execution_method == config.wasm_method
                        &&& executor.max_runtime_instances == config.max_runtime_instances
                        &&& executor.runtime_cache_size == config.runtime_cache_size
                        &&& executor.onchain_heap_alloc_strategy
                            == executor.offchain_heap_alloc_strategy
                        &&& executor.onchain_heap_alloc_strategy matches HeapAllocStrategy::Static {
                            extra_pages,
                        }
                        &&& match config.default_heap_pages {
                            Some(pages) => extra_pages <= pages && (pages - extra_pages)
                                % 0x1_0000_0000 == 0,
                            None => extra_pages == 2048,
                        }
                    },
                    PartialAction::SpawnTask { task } => reports && task is Telemetry,
                    PartialAction::CreateTransactionPool { is_validator } => is_validator <==>
                        config.role is Authority,
                    PartialAction::CreateBlockImport => true,
                    PartialAction::BuildImportQueue { import_queue: built, telemetry } => {
                        &&& built == import_queue
                        &&& telemetry == reports
                    },
                }
            },
    decreases outcomes.len(),
{
    let sequence = crate::partial::partial_sequence(config, import_queue);
    lemma_sequence_carries_the_configuration(config, import_queue);
    lemma_asks_along_the_sequence(config, import_queue, outcomes);
    if outcomes.len() > 0 {
        lemma_actions_carry_the_configuration(config, import_queue, outcomes.drop_last());
    }
    if let Step::Continue(progress, action) = partial_after(config, import_queue, outcomes) {
        assert(action == sequence[progress.done as int]);
    }
}

/// While an assembly goes on, it asks for the action that is next in its sequence.
proof fn lemma_asks_along_the_sequence<M, Q, E>(
    config: Configuration<M>,
    import_queue: Q,
    outcomes: Seq<Result<(), E>>,
)
    ensures
        partial_after(config, import_queue, outcomes) matches Step::Continue(progress, action)
            ==> {
            let sequence = crate::partial::partial_sequence(config, import_queue);
            &&& progress.plan == PartialPlan::of(config, import_queue)
            &&& progress.done == outcomes.len()
            &&& progress.done < sequence.len()
            &&& action == sequence[progress.done as int]
        },
    decreases outcomes.len(),
{
    if outcomes.len() > 0 {
        lemma_asks_along_the_sequence(config, import_queue, outcomes.drop_last());
    }
}

/// The actions of every assembly carry what was configured, and each that every node needs is there
/// once: the pool, the block import and the import queue last, in this order.
pub proof fn lemma_sequence_carries_the_configuration<M, Q>(
    config: Configuration<M>,
    import_queue: Q,
)
    ensures
        ({
            let sequence = crate::partial::partial_sequence(config, import_queue);
            let reports = config.telemetry_endpoints matches Some(list) && list@.len() > 0;
            let n = sequence.len();
            &&& n == if reports {
                6int
            } else {
                4
            }
            &&& forall|i: int|
                #![trigger sequence[i]]
                0 <= i < n ==> {
                    &&& sequence[i] is StartTelemetry <==> reports && i == 0
                    &&& sequence[i] is BuildFullParts <==> i == if reports {
                        1int
                    } else {
                        0
                    }
                    &&& sequence[i] is SpawnTask <==> reports && i == 2
                    &&& sequence[i] is CreateTransactionPool <==> i == n - 3
                    &&& sequence[i] is CreateBlockImport <==> i == n - 2
                    &&& sequence[i] is BuildImportQueue <==> i == n - 1
                    &&& match sequence[i] {
                        PartialAction::StartTelemetry { buffer_size, endpoints } => {
                            &&& buffer_size == 16
                            &&& config.telemetry_endpoints == Some(endpoints)
                            &&& endpoints@.len() > 0
                        },
                        PartialAction::BuildFullParts {
                            executor,
                            telemetry,
                            enable_import_proof_recording,
                        } => {
                            &&& telemetry == reports
                            &&& enable_import_proof_recording
                            &&& executor.execution_method == config.wasm_method
                            &&& executor.max_runtime_instances == config.max_runtime_instances
                            &&& executor.runtime_cache_size == config.runtime_cache_size
                            &&& executor.onchain_heap_alloc_strategy
                                == executor.offchain_heap_alloc_strategy
                            &&& executor.onchain_heap_alloc_strategy matches
                                HeapAllocStrategy::Static { extra_pages }
                            &&& match config.default_heap_pages {
                                Some(pages) => extra_pages <= pages && (pages - extra_pages)
                                    % 0x1_0000_0000 == 0,
                                None => extra_pages == 2048,
                            }
                        },
                        PartialAction::SpawnTask { task } => reports && task is Telemetry,
                        PartialAction::CreateTransactionPool { is_validator } => is_validator <==>
                            config.role is Authority,
                        PartialAction::CreateBlockImport => true,
                        PartialAction::BuildImportQueue { import_queue: built, telemetry } => {
                            &&& built == import_queue
                            &&& telemetry == reports
                        },
                    }
                }
        }),
{
}

/// What each outcome leads to. A failure ends the assembly with its error as it is. A success
/// leads on by one action, until the last one has succeeded: then the components are there, with
/// telemetry if and only if there is an endpoint to report to.
pub proof fn lemma_assembly_by_outcome<M, Q, E>(
    config: Configuration<M>,
    import_queue: Q,
    outcomes: Seq<Result<(), E>>,
    outcome: Result<(), E>,
)
    requires
        partial_after(config, import_queue, outcomes) is Continue,
    ensures
        partial_after(config, import_queue, outcomes) matches Step::Continue(_, action) && {
            let reports = config.telemetry_endpoints matches Some(list) && list@.len() > 0;
            let next = partial_after(config, import_queue, outcomes.push(outcome));
            match outcome {
                Err(error) => {
                    &&& next matches Step::Return(Err(returned))
                    &&& returned == error
                },
                Ok(_) => if action is BuildImportQueue {
                    &&& next matches Step::Return(Ok(components))
                    &&& components.telemetry == reports
                } else {
                    &&& next matches Step::Continue(_, following)
                    &&& action is StartTelemetry ==> following is BuildFullParts
                    &&& action is BuildFullParts && reports ==> following is SpawnTask
                    &&& action is BuildFullParts && !reports ==> following is CreateTransactionPool
                    &&& action is SpawnTask ==> following is CreateTransactionPool
                    &&& action is CreateTransactionPool ==> following is CreateBlockImport
                    &&& action is CreateBlockImport ==> following is BuildImportQueue
                },
            }
        },
{
    assert(outcomes.push(outcome).drop_last() =~= outcomes);
    assert(outcomes.push(outcome).last() == outcome);
    lemma_asks_along_the_sequence(config, import_queue, outcomes);
    lemma_asks_along_the_sequence(config, import_queue, outcomes.push(outcome));
    lemma_sequence_carries_the_configuration(config, import_queue);
    let sequence = crate::partial::partial_sequence(config, import_queue);
    assert(sequence[outcomes.len() as int] is BuildImportQueue <==> outcomes.len()
        == sequence.len() - 1);
}

/// An assembly begins with telemetry where there is an endpoint to report to, with all endpoints;
/// else with the parts of the node, which run as configured and without telemetry.
pub proof fn lemma_assembly_begins<M: Copy, Q: Copy>(
    config: Configuration<M>,
    import_queue: Q,
    start: (PartialBuild<M, Q>, PartialAction<M, Q>),
)
    requires
        call_ensures(crate::partial::new_partial::<M, Q>, (config, import_queue), start),
    ensures
        start.0@.done == 0,
        start.0@.plan.import_queue == import_queue,
        start.0@.plan.validator <==> config.role is Authority,
        start.0@.plan.telemetry <==> (config.telemetry_endpoints matches Some(list) && list@.len()
            > 0),
        match start.1 {
            PartialAction::StartTelemetry { buffer_size, endpoints } => {
                &&& buffer_size == 16
                &&& config.telemetry_endpoints == Some(endpoints)
                &&& endpoints@.len() > 0
            },
            PartialAction::BuildFullParts { telemetry, enable_import_proof_recording, .. } => {
                &&& config.telemetry_endpoints matches Some(list) ==> list@.len() == 0
                &&& !telemetry
                &&& enable_import_proof_recording
            },
            _ => false,
        },
{
    lemma_sequence_carries_the_configuration(config, import_queue);
}

/// A failed action ends an assembly with its error as it is, at every stage.
pub proof fn lemma_failure_is_handed_back<M: Copy, Q: Copy, E>(
    state: PartialBuild<M, Q>,
    outcome: Result<(), E>,
    next: Step<PartialBuild<M, Q>, PartialAction<M, Q>, Result<PartialComponents, E>>,
)
    requires
        call_ensures(PartialBuild::<M, Q>::step::<E>, (state, outcome), next),
    ensures
        next matches Step::Return(Err(returned)) ==> outcome == Err::<(), E>(returned),
        outcome is Err ==> next is Return,
        next matches Step::Continue(later, _) ==> later@.plan == state@.plan && later@.done
            == state@.done + 1,
        next matches Step::Return(Ok(components)) ==> components.telemetry
            == state@.plan.telemetry,
{
}

} // verus!
