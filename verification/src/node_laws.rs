//! What holds of every start-up of a node, whatever happens on the way.

use crate::consensus::{ConsensusStarter, DARecoveryProfile};
use crate::node::{
    NodeAction, NodeEvent, NodePlan, NodeProgress, NodeSetup, RpcExtensions, ServiceError,
};
use crate::step::Step;
use crate::tasks::Task;
use vstd::prelude::*;

verus! {

/// Where a start-up stands after a series of events.
pub open spec fn node_after<E>(setup: NodeSetup, hwbench: bool, events: Seq<NodeEvent<E>>) -> Step<
    NodeProgress,
    NodeAction,
    Result<(), ServiceError<E>>,
>
    decreases events.len(),
{
    if events.len() == 0 {
        let start = NodeProgress::begin(setup, hwbench);
        Step::Continue(start, start.pending())
    } else {
        match node_after(setup, hwbench, events.drop_last()) {
            Step::Continue(progress, _) => progress.after(events.last()),
            Step::Return(result) => Step::Return(result),
        }
    }
}

/// The actions that a start-up asks for over a series of events: the first one, and one for each
/// event that it goes on after.
pub open spec fn node_trace<E>(setup: NodeSetup, hwbench: bool, events: Seq<NodeEvent<E>>) -> Seq<
    NodeAction,
>
    decreases events.len(),
{
    let earlier = if events.len() == 0 {
        seq![]
    } else {
        node_trace(setup, hwbench, events.drop_last())
    };
    match node_after(setup, hwbench, events) {
        Step::Continue(_, action) => earlier.push(action),
        Step::Return(_) => earlier,
    }
}

/// What a start-up has learned from a series of events.
pub open spec fn node_learned<E>(
    setup: NodeSetup,
    hwbench: bool,
    events: Seq<NodeEvent<E>>,
) -> NodeProgress
    decreases events.len(),
{
    if events.len() == 0 {
        NodeProgress::begin(setup, hwbench)
    } else {
        node_learned(setup, hwbench, events.drop_last()).learn(events.last())
    }
}

/// Whether every event answers the action that was pending when it came, and none reports a
/// failure.
pub open spec fn goes_well<E>(setup: NodeSetup, hwbench: bool, events: Seq<NodeEvent<E>>) -> bool
    decreases events.len(),
{
    events.len() == 0 || {
        &&& goes_well(setup, hwbench, events.drop_last())
        &&& node_after(setup, hwbench, events.drop_last()) matches Step::Continue(_, action)
        &&& action.answered_by(events.last())
        &&& events.last().failure() is None
    }
}

/// While a start-up goes on there is an action left to do, and that is the one it asks for.
pub proof fn lemma_asks_for_pending<E>(
    setup: NodeSetup,
    hwbench: bool,
    events: Seq<NodeEvent<E>>,
)
    ensures
        node_after(setup, hwbench, events) matches Step::Continue(progress, action)
            ==> progress.is_running() && action == progress.pending(),
    decreases events.len(),
{
    if events.len() > 0 {
        lemma_asks_for_pending(setup, hwbench, events.drop_last());
    } else {
        lemma_first_actions(NodeProgress::begin(setup, hwbench).plan);
    }
}

/// The first actions are the same for every plan of a setup, but for what is learned before them;
/// they come nowhere else.
proof fn lemma_first_actions(plan: NodePlan)
    ensures
        8 <= plan.sequence().len() <= 12,
        forall|i: int|
            #![trigger plan.sequence()[i]]
            0 <= i < plan.sequence().len() ==> {
                let action = plan.sequence()[i];
                &&& i == 0 <==> action is PrepareNodeConfig
                &&& i == 1 <==> action is NewPartial
                &&& i == 2 <==> action is BuildRelayChainInterface
                &&& i == 1 ==> action == (NodeAction::NewPartial {
                    import_queue: plan.setup.import_queue,
                })
            },
{
}

/// What is learned from an event that answers the pending action does not change the actions up
/// to that one.
proof fn lemma_learning_keeps_the_past<E>(progress: NodeProgress, event: NodeEvent<E>)
    requires
        progress.is_running(),
        progress.pending().answered_by(event),
    ensures
        progress.done < progress.learn(event).plan.sequence().len(),
        progress.learn(event).plan.sequence().take((progress.done + 1) as int)
            == progress.plan.sequence().take((progress.done + 1) as int),
{
    let plan = progress.plan;
    let known = progress.learn(event).plan;
    lemma_first_actions(plan);
    lemma_first_actions(known);
    let end = (progress.done + 1) as int;
    assert(known.sequence().take(end) =~= plan.sequence().take(end)) by {
        if known != plan {
            assert(plan.sequence()[0] == known.sequence()[0]);
            assert(end == 2 ==> plan.sequence()[1] == known.sequence()[1]);
        }
    }
}

/// A start-up in which nothing fails performs the actions of its plan from the first one on, each
/// once and in order, and succeeds when the last one is done.
pub proof fn lemma_startup_follows_sequence<E>(
    setup: NodeSetup,
    hwbench: bool,
    events: Seq<NodeEvent<E>>,
)
    requires
        goes_well(setup, hwbench, events),
    ensures
        ({
            let known = node_learned(setup, hwbench, events);
            let sequence = known.plan.sequence();
            &&& events.len() <= sequence.len()
            &&& events.len() < sequence.len() ==> {
                &&& node_trace(setup, hwbench, events) == sequence.take((events.len() + 1) as int)
                &&& node_after(setup, hwbench, events) == Step::<
                    NodeProgress,
                    NodeAction,
                    Result<(), ServiceError<E>>,
                >::Continue(
                    NodeProgress { done: events.len(), ..known },
                    sequence[events.len() as int],
                )
            }
            &&& events.len() == sequence.len() ==> {
                &&& node_trace(setup, hwbench, events) == sequence
                &&& node_after(setup, hwbench, events) == Step::<
                    NodeProgress,
                    NodeAction,
                    Result<(), ServiceError<E>>,
                >::Return(Ok(()))
            }
        }),
    decreases events.len(),
{
    let known = node_learned(setup, hwbench, events);
    let sequence = known.plan.sequence();
    lemma_first_actions(known.plan);
    if events.len() == 0 {
        assert(node_trace(setup, hwbench, events) =~= sequence.take(1));
    } else {
        let before = events.drop_last();
        let last = events.last();
        lemma_startup_follows_sequence(setup, hwbench, before);
        let was_known = node_learned(setup, hwbench, before);
        let progress = NodeProgress { done: before.len(), ..was_known };
        lemma_learning_keeps_the_past(progress, last);
        assert(progress.learn(last).plan == known.plan);
        if events.len() < sequence.len() {
            assert(node_trace(setup, hwbench, events) =~= sequence.take(
                (events.len() + 1) as int,
            ));
        } else {
            assert(node_trace(setup, hwbench, events) =~= sequence);
        }
    }
}

/// A start-up that has returned does nothing more, whatever comes.
pub proof fn lemma_return_is_final<E>(
    setup: NodeSetup,
    hwbench: bool,
    events: Seq<NodeEvent<E>>,
    more: Seq<NodeEvent<E>>,
)
    requires
        node_after(setup, hwbench, events) is Return,
    ensures
        node_after(setup, hwbench, events + more) == node_after(setup, hwbench, events),
        node_trace(setup, hwbench, events + more) == node_trace(setup, hwbench, events),
    decreases more.len(),
{
    if more.len() == 0 {
        assert(events + more =~= events);
    } else {
        lemma_return_is_final(setup, hwbench, events, more.drop_last());
        assert((events + more).drop_last() =~= events + more.drop_last());
        assert((events + more).last() == more.last());
    }
}

/// The first failure ends a start-up: it returns the error of the failed action, and asks for
/// nothing after that action, whatever comes.
pub proof fn lemma_failure_ends_startup<E>(
    setup: NodeSetup,
    hwbench: bool,
    events: Seq<NodeEvent<E>>,
    failed: NodeAction,
    event: NodeEvent<E>,
    more: Seq<NodeEvent<E>>,
)
    requires
        node_after(setup, hwbench, events) matches Step::Continue(_, action) && action == failed,
        failed.answered_by(event),
        event.failure() is Some,
    ensures
        node_after(setup, hwbench, events.push(event) + more) == Step::<
            NodeProgress,
            NodeAction,
            Result<(), ServiceError<E>>,
        >::Return(Err(failed.error_of(event.failure()->0))),
        node_trace(setup, hwbench, events.push(event) + more) == node_trace(setup, hwbench, events),
        node_trace(setup, hwbench, events).last() == failed,
{
    lemma_asks_for_pending(setup, hwbench, events);
    assert(events.push(event).drop_last() =~= events);
    assert(events.push(event).last() == event);
    lemma_return_is_final(setup, hwbench, events.push(event), more);
}

/// The network is started last, after every other action of the plan, and once.
pub proof fn lemma_network_starts_last(plan: NodePlan)
    ensures
        plan.sequence().len() > 0,
        forall|i: int|
            #![trigger plan.sequence()[i]]
            0 <= i < plan.sequence().len() ==> (plan.sequence()[i] is StartNetwork <==> i
                == plan.sequence().len() - 1),
{
}

/// A node collates if and only if it is a validator, with the collator of its setup and under its
/// own parachain identifier; it follows the relay chain with the matching recovery profile.
pub proof fn lemma_only_validators_collate(plan: NodePlan)
    ensures
        plan.validator <==> exists|i: int|
            0 <= i < plan.sequence().len() && #[trigger] plan.sequence()[i] is StartConsensus,
        forall|i: int|
            #![trigger plan.sequence()[i]]
            0 <= i < plan.sequence().len() ==> match plan.sequence()[i] {
                NodeAction::StartConsensus { starter, args } => {
                    &&& starter == plan.setup.consensus
                    &&& args.para_id == plan.setup.para_id
                },
                NodeAction::StartRelayChainTasks { para_id, da_recovery_profile, .. } => {
                    &&& para_id == plan.setup.para_id
                    &&& da_recovery_profile == DARecoveryProfile::Collator <==> plan.validator
                },
                _ => true,
            },
{
    if plan.validator {
        let i = plan.sequence().len() - 2;
        assert(plan.sequence()[i] is StartConsensus);
    }
}

/// A hardware benchmark is printed if there is one; it is held against the reference hardware for
/// validators only, and reported where there is telemetry.
pub proof fn lemma_hwbench_reporting(plan: NodePlan)
    ensures
        plan.hwbench <==> plan.sequence().contains(NodeAction::PrintHwbench),
        plan.hwbench && plan.validator <==> plan.sequence().contains(
            NodeAction::WarnIfSlowHardware,
        ),
        plan.hwbench && plan.telemetry <==> plan.sequence().contains(
            NodeAction::SpawnTask { task: Task::TelemetryHwbench },
        ),
{
    let sequence = plan.sequence();
    let report = plan.hwbench_report();
    assert forall|i: int| 0 <= i < sequence.len() implies {
        &&& #[trigger] sequence[i] == NodeAction::PrintHwbench ==> plan.hwbench
        &&& sequence[i] == NodeAction::WarnIfSlowHardware ==> plan.hwbench && plan.validator
        &&& sequence[i] is SpawnTask ==> plan.hwbench && plan.telemetry
    } by {
        if i < 5 {
            assert(sequence[i] == plan.assembly()[i]);
        } else if i < 5 + report.len() {
            assert(sequence[i] == report[i - 5]);
        } else {
            assert(sequence[i] == plan.launch()[i - 5 - report.len()]);
        }
    }
    assert forall|i: int| 0 <= i < report.len() implies sequence.contains(
        #[trigger] report[i],
    ) by {
        assert(sequence[i + 5] == report[i]);
    }
    if plan.hwbench {
        assert(report[0] == NodeAction::PrintHwbench);
        if plan.validator {
            assert(report[1] == NodeAction::WarnIfSlowHardware);
        }
        if plan.telemetry {
            assert(report.last() == NodeAction::SpawnTask { task: Task::TelemetryHwbench });
        }
    }
}

/// Whether no event of a series has a validator collate without a key to sign collations with.
pub open spec fn never_lacks_collator_key<E>(
    setup: NodeSetup,
    hwbench: bool,
    events: Seq<NodeEvent<E>>,
) -> bool
    decreases events.len(),
{
    events.len() == 0 || {
        &&& never_lacks_collator_key(setup, hwbench, events.drop_last())
        &&& node_after(setup, hwbench, events.drop_last()) matches Step::Continue(progress, _)
            ==> !progress.lacks_collator_key(events.last())
    }
}

/// A node that comes to collate has a key to sign its collations with.
pub proof fn lemma_collates_with_key<E>(
    setup: NodeSetup,
    hwbench: bool,
    events: Seq<NodeEvent<E>>,
)
    requires
        never_lacks_collator_key(setup, hwbench, events),
    ensures
        node_after(setup, hwbench, events) matches Step::Continue(progress, action) ==> (
        action is StartConsensus ==> progress.collator_key),
    decreases events.len(),
{
    lemma_asks_for_pending(setup, hwbench, events);
    if events.len() == 0 {
        lemma_first_actions(NodeProgress::begin(setup, hwbench).plan);
    } else {
        let before = events.drop_last();
        lemma_collates_with_key(setup, hwbench, before);
        lemma_asks_for_pending(setup, hwbench, before);
        if let Step::Continue(progress, action) = node_after(setup, hwbench, before) {
            let known = progress.learn(events.last());
            lemma_before_consensus(progress.plan);
            lemma_before_consensus(known.plan);
            lemma_first_actions(progress.plan);
            lemma_first_actions(known.plan);
        }
    }
}

/// Consensus is started right after the relay chain tasks, by validators.
proof fn lemma_before_consensus(plan: NodePlan)
    ensures
        forall|i: int|
            #![trigger plan.sequence()[i + 1]]
            0 <= i && i + 1 < plan.sequence().len() && plan.sequence()[i + 1] is StartConsensus
                ==> plan.sequence()[i] is StartRelayChainTasks && plan.validator && i > 2,
{
}

/// Every start-up has between eight and twelve actions: one in which nothing fails has returned
/// after the twelfth at the latest.
pub proof fn lemma_startup_is_bounded<E>(
    setup: NodeSetup,
    hwbench: bool,
    events: Seq<NodeEvent<E>>,
)
    requires
        goes_well(setup, hwbench, events),
    ensures
        8 <= node_learned(setup, hwbench, events).plan.sequence().len() <= 12,
        events.len() <= 12,
        events.len() == 12 ==> node_after(setup, hwbench, events) is Return,
{
    lemma_startup_follows_sequence(setup, hwbench, events);
    lemma_first_actions(node_learned(setup, hwbench, events).plan);
}

/// Whether every event answers the action that was pending when it came.
pub open spec fn node_answers<E>(setup: NodeSetup, hwbench: bool, events: Seq<NodeEvent<E>>) -> bool
    decreases events.len(),
{
    events.len() == 0 || {
        &&& node_answers(setup, hwbench, events.drop_last())
        &&& node_after(setup, hwbench, events.drop_last()) matches Step::Continue(_, action)
        &&& action.answered_by(events.last())
    }
}

/// As long as a start-up has not returned, nothing has failed.
pub proof fn lemma_unfinished_goes_well<E>(
    setup: NodeSetup,
    hwbench: bool,
    events: Seq<NodeEvent<E>>,
)
    requires
        node_answers(setup, hwbench, events),
        node_after(setup, hwbench, events) is Continue,
    ensures
        goes_well(setup, hwbench, events),
    decreases events.len(),
{
    if events.len() > 0 {
        lemma_unfinished_goes_well(setup, hwbench, events.drop_last());
        lemma_asks_for_pending(setup, hwbench, events.drop_last());
    }
}

/// A start-up that returns has succeeded if and only if it asked for the network to be started,
/// exactly once; it has failed if and only if it never did.
pub proof fn lemma_success_iff_network_started<E>(
    setup: NodeSetup,
    hwbench: bool,
    events: Seq<NodeEvent<E>>,
    result: Result<(), ServiceError<E>>,
)
    requires
        node_answers(setup, hwbench, events),
        node_after(setup, hwbench, events) == Step::<
            NodeProgress,
            NodeAction,
            Result<(), ServiceError<E>>,
        >::Return(result),
    ensures
        result is Ok <==> node_trace(setup, hwbench, events).to_multiset().count(
            NodeAction::StartNetwork,
        ) == 1,
        result is Err <==> node_trace(setup, hwbench, events).to_multiset().count(
            NodeAction::StartNetwork,
        ) == 0,
{
    let before = events.drop_last();
    let trace = node_trace(setup, hwbench, events);
    lemma_unfinished_goes_well(setup, hwbench, before);
    lemma_startup_follows_sequence(setup, hwbench, before);
    lemma_asks_for_pending(setup, hwbench, before);
    let plan = node_learned(setup, hwbench, before).plan;
    let sequence = plan.sequence();
    lemma_network_starts_last(plan);
    assert(trace == sequence.take(events.len() as int));
    trace.to_multiset_ensures();
    if events.last().failure() is None {
        assert(goes_well(setup, hwbench, events));
        lemma_startup_follows_sequence(setup, hwbench, events);
        let known = node_learned(setup, hwbench, events).plan;
        lemma_network_starts_last(known);
        assert(trace == known.sequence());
        let rest = trace.drop_last();
        assert(trace =~= rest.push(NodeAction::StartNetwork));
        rest.to_multiset_ensures();
        assert(!rest.contains(NodeAction::StartNetwork));
    } else {
        assert(!(sequence[events.len() - 1] is StartNetwork));
        assert(!trace.contains(NodeAction::StartNetwork));
    }
}

/// Whether no event of a series reports that the node is an authority.
pub open spec fn no_authority<E>(events: Seq<NodeEvent<E>>) -> bool {
    forall|i: int|
        0 <= i < events.len() ==> !(#[trigger] events[i] matches NodeEvent::ConfigPrepared { role }
            && role is Authority)
}

/// A setup with another collator.
pub open spec fn with_consensus(setup: NodeSetup, consensus: ConsensusStarter) -> NodeSetup {
    NodeSetup { consensus, ..setup }
}

/// A setup with other RPC extensions.
pub open spec fn with_rpc(setup: NodeSetup, rpc_extensions: RpcExtensions) -> NodeSetup {
    NodeSetup { rpc_extensions, ..setup }
}

/// An action with other RPC extensions, where it has any.
pub open spec fn action_with_rpc(action: NodeAction, rpc_extensions: RpcExtensions) -> NodeAction {
    match action {
        NodeAction::SpawnTasks { telemetry, .. } => NodeAction::SpawnTasks {
            rpc_extensions,
            telemetry,
        },
        _ => action,
    }
}

/// The actions of a run with other RPC extensions.
pub open spec fn actions_with_rpc(
    actions: Seq<NodeAction>,
    rpc_extensions: RpcExtensions,
) -> Seq<NodeAction> {
    actions.map_values(|action: NodeAction| action_with_rpc(action, rpc_extensions))
}

/// The result that a start-up has come to after a series of events, if it has.
pub open spec fn node_result<E>(
    setup: NodeSetup,
    hwbench: bool,
    events: Seq<NodeEvent<E>>,
) -> Option<Result<(), ServiceError<E>>> {
    match node_after(setup, hwbench, events) {
        Step::Continue(_, _) => None,
        Step::Return(result) => Some(result),
    }
}

/// A run with another collator: where it stands, but for the setup that it carries along.
spec fn step_with_consensus<E>(
    step: Step<NodeProgress, NodeAction, Result<(), ServiceError<E>>>,
    consensus: ConsensusStarter,
) -> Step<NodeProgress, NodeAction, Result<(), ServiceError<E>>> {
    match step {
        Step::Continue(progress, action) => Step::Continue(
            progress_with(progress, with_consensus(progress.plan.setup, consensus)),
            action,
        ),
        Step::Return(result) => Step::Return(result),
    }
}

/// A run with other RPC extensions: where it stands, but for those.
spec fn step_with_rpc<E>(
    step: Step<NodeProgress, NodeAction, Result<(), ServiceError<E>>>,
    rpc_extensions: RpcExtensions,
) -> Step<NodeProgress, NodeAction, Result<(), ServiceError<E>>> {
    match step {
        Step::Continue(progress, action) => Step::Continue(
            progress_with(progress, with_rpc(progress.plan.setup, rpc_extensions)),
            action_with_rpc(action, rpc_extensions),
        ),
        Step::Return(result) => Step::Return(result),
    }
}

/// A start-up that has come as far, with another setup.
spec fn progress_with(progress: NodeProgress, setup: NodeSetup) -> NodeProgress {
    NodeProgress { plan: NodePlan { setup, ..progress.plan }, ..progress }
}

/// The collator of a setup has no part in the start-up of a node that is no authority: with
/// another one, the actions and the result are the same.
pub proof fn lemma_collator_matters_to_authorities_only<E>(
    setup: NodeSetup,
    consensus: ConsensusStarter,
    hwbench: bool,
    events: Seq<NodeEvent<E>>,
)
    requires
        no_authority(events),
    ensures
        node_trace(with_consensus(setup, consensus), hwbench, events) == node_trace(
            setup,
            hwbench,
            events,
        ),
        node_result(with_consensus(setup, consensus), hwbench, events) == node_result(
            setup,
            hwbench,
            events,
        ),
    decreases events.len(),
{
    lemma_stands_alike_without_authority(setup, consensus, hwbench, events);
    if events.len() > 0 {
        lemma_no_authority_before(events);
        lemma_collator_matters_to_authorities_only(setup, consensus, hwbench, events.drop_last());
    }
}

/// A series of events that reports no authority does not do so before its last event, nor there.
proof fn lemma_no_authority_before<E>(events: Seq<NodeEvent<E>>)
    requires
        no_authority(events),
        events.len() > 0,
    ensures
        no_authority(events.drop_last()),
        !(events.last() matches NodeEvent::ConfigPrepared { role } && role is Authority),
{
    let before = events.drop_last();
    assert forall|i: int| 0 <= i < before.len() implies !(
    #[trigger] before[i] matches NodeEvent::ConfigPrepared { role } && role is Authority) by {
        assert(before[i] == events[i]);
    }
    assert(events[events.len() - 1] == events.last());
}

/// With another collator, a run without an authority stands where it did.
proof fn lemma_stands_alike_without_authority<E>(
    setup: NodeSetup,
    consensus: ConsensusStarter,
    hwbench: bool,
    events: Seq<NodeEvent<E>>,
)
    requires
        no_authority(events),
    ensures
        node_after(with_consensus(setup, consensus), hwbench, events) == step_with_consensus(
            node_after(setup, hwbench, events),
            consensus,
        ),
        node_after(setup, hwbench, events) matches Step::Continue(progress, _)
            ==> !progress.plan.validator,
    decreases events.len(),
{
    if events.len() == 0 {
        lemma_same_without_collator(NodeProgress::begin(setup, hwbench).plan, consensus);
    } else {
        lemma_no_authority_before(events);
        lemma_stands_alike_without_authority(setup, consensus, hwbench, events.drop_last());
        if let Step::Continue(progress, _) = node_after(setup, hwbench, events.drop_last()) {
            lemma_steps_alike_without_authority(progress, consensus, events.last());
        }
    }
}

/// With another collator, a node that is no authority takes the same step.
proof fn lemma_steps_alike_without_authority<E>(
    progress: NodeProgress,
    consensus: ConsensusStarter,
    event: NodeEvent<E>,
)
    requires
        !progress.plan.validator,
        !(event matches NodeEvent::ConfigPrepared { role } && role is Authority),
    ensures
        progress_with(progress, with_consensus(progress.plan.setup, consensus)).after(event)
            == step_with_consensus(progress.after(event), consensus),
        progress.after(event) matches Step::Continue(next, _) ==> !next.plan.validator,
{
    lemma_same_without_collator(progress.plan, consensus);
    lemma_same_without_collator(progress.learn(event).plan, consensus);
}

/// The actions of a plan that does not collate are the same with any collator.
proof fn lemma_same_without_collator(plan: NodePlan, consensus: ConsensusStarter)
    requires
        !plan.validator,
    ensures
        (NodePlan { setup: with_consensus(plan.setup, consensus), ..plan }).sequence()
            == plan.sequence(),
{
    let other = NodePlan { setup: with_consensus(plan.setup, consensus), ..plan };
    assert(other.assembly() =~= plan.assembly());
    assert(other.hwbench_report() =~= plan.hwbench_report());
    assert(other.launch() =~= plan.launch());
}

/// The RPC extensions of a setup matter to the RPC server alone: with others, the result is the
/// same, and so are the actions but for the extensions that the tasks are spawned with.
pub proof fn lemma_rpc_matters_to_server_only<E>(
    setup: NodeSetup,
    rpc_extensions: RpcExtensions,
    hwbench: bool,
    events: Seq<NodeEvent<E>>,
)
    ensures
        node_trace(with_rpc(setup, rpc_extensions), hwbench, events) == actions_with_rpc(
            node_trace(setup, hwbench, events),
            rpc_extensions,
        ),
        node_result(with_rpc(setup, rpc_extensions), hwbench, events) == node_result(
            setup,
            hwbench,
            events,
        ),
    decreases events.len(),
{
    lemma_stands_alike_but_for_rpc(setup, rpc_extensions, hwbench, events);
    if events.len() > 0 {
        lemma_rpc_matters_to_server_only(setup, rpc_extensions, hwbench, events.drop_last());
    }
    assert(node_trace(with_rpc(setup, rpc_extensions), hwbench, events) =~= actions_with_rpc(
        node_trace(setup, hwbench, events),
        rpc_extensions,
    ));
}

/// With other RPC extensions, a run stands where it did but for those.
proof fn lemma_stands_alike_but_for_rpc<E>(
    setup: NodeSetup,
    rpc_extensions: RpcExtensions,
    hwbench: bool,
    events: Seq<NodeEvent<E>>,
)
    ensures
        node_after(with_rpc(setup, rpc_extensions), hwbench, events) == step_with_rpc(
            node_after(setup, hwbench, events),
            rpc_extensions,
        ),
    decreases events.len(),
{
    if events.len() == 0 {
        let plan = NodeProgress::begin(setup, hwbench).plan;
        lemma_same_but_for_rpc(plan, rpc_extensions);
        lemma_first_actions(plan);
    } else {
        lemma_stands_alike_but_for_rpc(setup, rpc_extensions, hwbench, events.drop_last());
        lemma_asks_for_pending(setup, hwbench, events.drop_last());
        if let Step::Continue(progress, _) = node_after(setup, hwbench, events.drop_last()) {
            lemma_steps_alike_but_for_rpc(progress, rpc_extensions, events.last());
        }
    }
}

/// With other RPC extensions, a start-up takes the same step but for those.
proof fn lemma_steps_alike_but_for_rpc<E>(
    progress: NodeProgress,
    rpc_extensions: RpcExtensions,
    event: NodeEvent<E>,
)
    requires
        progress.is_running(),
    ensures
        progress_with(progress, with_rpc(progress.plan.setup, rpc_extensions)).after(event)
            == step_with_rpc(progress.after(event), rpc_extensions),
{
    lemma_same_but_for_rpc(progress.plan, rpc_extensions);
    lemma_same_but_for_rpc(progress.learn(event).plan, rpc_extensions);
}

/// The actions of a plan with other RPC extensions are the plan's actions with those.
proof fn lemma_same_but_for_rpc(plan: NodePlan, rpc_extensions: RpcExtensions)
    ensures
        (NodePlan { setup: with_rpc(plan.setup, rpc_extensions), ..plan }).sequence()
            == actions_with_rpc(plan.sequence(), rpc_extensions),
{
    let other = NodePlan { setup: with_rpc(plan.setup, rpc_extensions), ..plan };
    assert(other.assembly() =~= actions_with_rpc(plan.assembly(), rpc_extensions));
    assert(other.hwbench_report() =~= actions_with_rpc(plan.hwbench_report(), rpc_extensions));
    assert(other.launch() =~= actions_with_rpc(plan.launch(), rpc_extensions));
    assert(other.sequence() =~= actions_with_rpc(plan.sequence(), rpc_extensions));
}

} // verus!
