//! What the actions of a start-up carry, in terms of what it was asked for and what was reported to
//! it, and what each report leads to.

use crate::consensus::{ConsensusPlan, DARecoveryProfile};
use crate::node::{
    NodeAction, NodeEvent, NodePlan, NodeProgress, NodeSetup, NodeStart, ServiceError,
};
use crate::node_laws;
use crate::step::Step;
use crate::tasks::Task;
use vstd::prelude::*;

verus! {

/// Whatever is reported, the actions of a start-up carry what it was asked for as it is: the import
/// queue, the parachain, the Sybil resistance, the RPC extensions, the collator, and whether there
/// is a hardware benchmark. The relay chain has slots of six seconds.
pub proof fn lemma_actions_carry_the_setup<E>(
    setup: NodeSetup,
    hwbench: bool,
    events: Seq<NodeEvent<E>>,
)
    ensures
        forall|i: int|
            #![trigger node_laws::node_trace(setup, hwbench, events)[i]]
            0 <= i < node_laws::node_trace(setup, hwbench, events).len() ==> match
            node_laws::node_trace(setup, hwbench, events)[i] {
                NodeAction::NewPartial { import_queue } => import_queue == setup.import_queue,
                NodeAction::BuildRelayChainInterface { hwbench: handed_on, .. } => handed_on
                    == hwbench,
                NodeAction::BuildNetwork { para_id, sybil_resistance_level } => {
                    &&& para_id == setup.para_id
                    &&& sybil_resistance_level == setup.sybil_resistance_level
                },
                NodeAction::SpawnTasks { rpc_extensions, .. } => rpc_extensions
                    == setup.rpc_extensions,
                NodeAction::PrintHwbench | NodeAction::WarnIfSlowHardware => hwbench,
                NodeAction::SpawnTask { task } => hwbench && task is TelemetryHwbench,
                NodeAction::StartRelayChainTasks { para_id, relay_chain_slot_duration_ms, .. } => {
                    &&& para_id == setup.para_id
                    &&& relay_chain_slot_duration_ms == 6000
                },
                NodeAction::StartConsensus { starter, args } => {
                    &&& starter == setup.consensus
                    &&& args.para_id == setup.para_id
                    &&& args.relay_chain_slot_duration_ms == 6000
                },
                NodeAction::PrepareNodeConfig
                | NodeAction::GetOverseerHandle
                | NodeAction::StartNetwork => true,
            },
    decreases events.len(),
{
    lemma_keeps_what_was_asked(setup, hwbench, events);
    node_laws::lemma_asks_for_pending(setup, hwbench, events);
    if events.len() > 0 {
        lemma_actions_carry_the_setup(setup, hwbench, events.drop_last());
    }
    if let Step::Continue(progress, _) = node_laws::node_after(setup, hwbench, events) {
        lemma_plan_carries_the_setup(progress.plan);
    }
}

/// A start-up keeps to what it was asked for.
proof fn lemma_keeps_what_was_asked<E>(
    setup: NodeSetup,
    hwbench: bool,
    events: Seq<NodeEvent<E>>,
)
    ensures
        node_laws::node_after(setup, hwbench, events) matches Step::Continue(progress, _) ==> {
            &&& progress.plan.setup == setup
            &&& progress.plan.hwbench == hwbench
        },
    decreases events.len(),
{
    if events.len() > 0 {
        lemma_keeps_what_was_asked(setup, hwbench, events.drop_last());
    }
}

/// Every plan builds the network once, for the parachain and with the Sybil resistance of its
/// setup, and hands on the rest of its setup, its benchmark, its role and its telemetry where they
/// belong.
pub proof fn lemma_plan_carries_the_setup(plan: NodePlan)
    ensures
        forall|i: int|
            #![trigger plan.sequence()[i]]
            0 <= i < plan.sequence().len() ==> {
                &&& plan.sequence()[i] is BuildNetwork <==> i == 3
                &&& match plan.sequence()[i] {
                    NodeAction::NewPartial { import_queue } => import_queue
                        == plan.setup.import_queue,
                    NodeAction::BuildRelayChainInterface { telemetry, hwbench } => {
                        &&& telemetry == plan.telemetry
                        &&& hwbench == plan.hwbench
                    },
                    NodeAction::BuildNetwork { para_id, sybil_resistance_level } => {
                        &&& para_id == plan.setup.para_id
                        &&& sybil_resistance_level == plan.setup.sybil_resistance_level
                    },
                    NodeAction::SpawnTasks { rpc_extensions, telemetry } => {
                        &&& rpc_extensions == plan.setup.rpc_extensions
                        &&& telemetry == plan.telemetry
                    },
                    NodeAction::PrintHwbench => plan.hwbench,
                    NodeAction::WarnIfSlowHardware => plan.hwbench && plan.validator,
                    NodeAction::SpawnTask { task } => {
                        &&& plan.hwbench
                        &&& plan.telemetry
                        &&& task == Task::TelemetryHwbench
                    },
                    NodeAction::StartRelayChainTasks {
                        para_id,
                        da_recovery_profile,
                        relay_chain_slot_duration_ms,
                    } => {
                        &&& para_id == plan.setup.para_id
                        &&& da_recovery_profile == DARecoveryProfile::Collator <==> plan.validator
                        &&& relay_chain_slot_duration_ms == 6000
                    },
                    NodeAction::StartConsensus { starter, args } => {
                        &&& plan.validator
                        &&& starter == plan.setup.consensus
                        &&& args.para_id == plan.setup.para_id
                        &&& args.relay_chain_slot_duration_ms == 6000
                        &&& args.telemetry == plan.telemetry
                    },
                    NodeAction::PrepareNodeConfig
                    | NodeAction::GetOverseerHandle
                    | NodeAction::StartNetwork => true,
                }
            },
{
}

/// What a start-up has taken from the reports: the first one tells whether the node is an
/// authority, the second whether there is telemetry, the third whether there is a collator key.
proof fn lemma_takes_reports<E>(setup: NodeSetup, hwbench: bool, events: Seq<NodeEvent<E>>)
    requires
        node_laws::node_answers(setup, hwbench, events),
    ensures
        node_laws::node_after(setup, hwbench, events) matches Step::Continue(progress, _) ==> {
            &&& progress.done == events.len()
            &&& progress.plan.validator <==> events.len() > 0 && (
            events[0] matches NodeEvent::ConfigPrepared { role } && role is Authority)
            &&& progress.plan.telemetry <==> events.len() > 1 && (
            events[1] matches NodeEvent::PartialBuilt(Ok(true)))
            &&& progress.collator_key <==> events.len() > 2 && (
            events[2] matches NodeEvent::RelayChainInterfaceBuilt(Ok(true)))
            &&& node_laws::node_trace(setup, hwbench, events).len() == events.len() + 1
        },
    decreases events.len(),
{
    if events.len() > 0 {
        let before = events.drop_last();
        lemma_takes_reports(setup, hwbench, before);
        node_laws::lemma_asks_for_pending(setup, hwbench, before);
        if let Step::Continue(progress, _) = node_laws::node_after(setup, hwbench, before) {
            lemma_first_reports(progress.plan);
            assert(events[before.len() as int] == events.last());
            assert(events.len() > 1 ==> events[0] == before[0]);
            assert(events.len() > 2 ==> events[1] == before[1]);
            assert(events.len() > 3 ==> events[2] == before[2]);
        }
    }
}

/// The actions that tell something of the node are the first three.
proof fn lemma_first_reports(plan: NodePlan)
    ensures
        forall|i: int|
            #![trigger plan.sequence()[i]]
            0 <= i < plan.sequence().len() ==> {
                &&& plan.sequence()[i] is PrepareNodeConfig <==> i == 0
                &&& plan.sequence()[i] is NewPartial <==> i == 1
                &&& plan.sequence()[i] is BuildRelayChainInterface <==> i == 2
            },
{
}

/// The actions of a start-up go by what was reported to it. The relay chain interface, the tasks
/// and the collator get telemetry if and only if the partial components came with it. Withheld
/// blocks are recovered as a collator would if and only if the node is an authority. Only an
/// authority collates or is warned of slow hardware, and a benchmark is reported only where there
/// is telemetry.
pub proof fn lemma_actions_follow_reports<E>(
    setup: NodeSetup,
    hwbench: bool,
    events: Seq<NodeEvent<E>>,
)
    requires
        node_laws::node_answers(setup, hwbench, events),
    ensures
        forall|i: int|
            #![trigger node_laws::node_trace(setup, hwbench, events)[i]]
            0 <= i < node_laws::node_trace(setup, hwbench, events).len() ==> {
                let authority = events.len() > 0 && (
                events[0] matches NodeEvent::ConfigPrepared { role } && role is Authority);
                let reports = events.len() > 1 && (events[1] matches NodeEvent::PartialBuilt(
                    Ok(true),
                ));
                match node_laws::node_trace(setup, hwbench, events)[i] {
                    NodeAction::BuildRelayChainInterface { telemetry, .. } => telemetry == reports,
                    NodeAction::SpawnTasks { telemetry, .. } => telemetry == reports,
                    NodeAction::WarnIfSlowHardware => authority,
                    NodeAction::SpawnTask { .. } => reports,
                    NodeAction::StartRelayChainTasks { da_recovery_profile, .. } => {
                        &&& da_recovery_profile is Collator <==> authority
                        &&& da_recovery_profile is FullNode <==> !authority
                    },
                    NodeAction::StartConsensus { args, .. } => authority && args.telemetry
                        == reports,
                    _ => true,
                }
            },
    decreases events.len(),
{
    lemma_takes_reports(setup, hwbench, events);
    node_laws::lemma_asks_for_pending(setup, hwbench, events);
    if events.len() > 0 {
        let before = events.drop_last();
        lemma_actions_follow_reports(setup, hwbench, before);
        lemma_takes_reports(setup, hwbench, before);
        if before.len() <= 1 {
            lemma_early_actions(setup, hwbench, before);
        }
        assert(before.len() > 0 ==> before[0] == events[0]);
        assert(before.len() > 1 ==> before[1] == events[1]);
    }
    if let Step::Continue(progress, _) = node_laws::node_after(setup, hwbench, events) {
        lemma_plan_carries_the_setup(progress.plan);
        lemma_first_reports(progress.plan);
    }
}

/// Before the second report nothing has been asked for that goes by it.
proof fn lemma_early_actions<E>(setup: NodeSetup, hwbench: bool, events: Seq<NodeEvent<E>>)
    requires
        node_laws::node_answers(setup, hwbench, events),
        events.len() <= 1,
    ensures
        forall|i: int|
            #![trigger node_laws::node_trace(setup, hwbench, events)[i]]
            0 <= i < node_laws::node_trace(setup, hwbench, events).len() ==> {
                let action = node_laws::node_trace(setup, hwbench, events)[i];
                action is PrepareNodeConfig || action is NewPartial
            },
    decreases events.len(),
{
    lemma_takes_reports(setup, hwbench, events);
    node_laws::lemma_asks_for_pending(setup, hwbench, events);
    if events.len() > 0 {
        lemma_early_actions(setup, hwbench, events.drop_last());
    }
    if let Step::Continue(progress, _) = node_laws::node_after(setup, hwbench, events) {
        lemma_first_reports(progress.plan);
    }
}

/// What each report leads to. An error ends the start-up: one of the relay chain interface, be it
/// that it cannot be built or that it has no overseer, as an application error, and any other as it
/// is. A success leads on by one action, or ends the start-up where the network was started. A
/// report of another kind than the action ends with changes nothing.
pub proof fn lemma_start_by_report<E>(
    state: NodeStart,
    action: NodeAction,
    event: NodeEvent<E>,
    next: Step<NodeStart, NodeAction, Result<(), ServiceError<E>>>,
)
    requires
        call_ensures(NodeStart::action, (&state,), action),
        call_ensures(NodeStart::step::<E>, (state, event), next),
    ensures
        match (action, event) {
            (
                NodeAction::BuildRelayChainInterface { .. },
                NodeEvent::RelayChainInterfaceBuilt(Err(error)),
            ) => {
                &&& next matches Step::Return(Err(ServiceError::Application(returned)))
                &&& returned == error
            },
            (NodeAction::GetOverseerHandle, NodeEvent::Completed(Err(error))) => {
                &&& next matches Step::Return(Err(ServiceError::Application(returned)))
                &&& returned == error
            },
            (NodeAction::NewPartial { .. }, NodeEvent::PartialBuilt(Err(error))) => {
                &&& next matches Step::Return(Err(ServiceError::Service(returned)))
                &&& returned == error
            },
            (NodeAction::BuildNetwork { .. }, NodeEvent::Completed(Err(error))) => {
                &&& next matches Step::Return(Err(ServiceError::Service(returned)))
                &&& returned == error
            },
            (NodeAction::SpawnTasks { .. }, NodeEvent::Completed(Err(error))) => {
                &&& next matches Step::Return(Err(ServiceError::Service(returned)))
                &&& returned == error
            },
            (NodeAction::StartRelayChainTasks { .. }, NodeEvent::Completed(Err(error))) => {
                &&& next matches Step::Return(Err(ServiceError::Service(returned)))
                &&& returned == error
            },
            (NodeAction::StartConsensus { .. }, NodeEvent::Completed(Err(error))) => {
                &&& next matches Step::Return(Err(ServiceError::Service(returned)))
                &&& returned == error
            },
            (NodeAction::StartNetwork, NodeEvent::Performed) => next matches Step::Return(Ok(_)),
            (NodeAction::PrepareNodeConfig, NodeEvent::ConfigPrepared { .. })
            | (NodeAction::NewPartial { .. }, NodeEvent::PartialBuilt(Ok(_)))
            | (
                NodeAction::BuildRelayChainInterface { .. },
                NodeEvent::RelayChainInterfaceBuilt(Ok(_)),
            )
            | (NodeAction::BuildNetwork { .. }, NodeEvent::Completed(Ok(_)))
            | (NodeAction::SpawnTasks { .. }, NodeEvent::Completed(Ok(_)))
            | (NodeAction::GetOverseerHandle, NodeEvent::Completed(Ok(_)))
            | (NodeAction::StartRelayChainTasks { .. }, NodeEvent::Completed(Ok(_)))
            | (NodeAction::StartConsensus { .. }, NodeEvent::Completed(Ok(_)))
            | (NodeAction::PrintHwbench, NodeEvent::Performed)
            | (NodeAction::WarnIfSlowHardware, NodeEvent::Performed)
            | (NodeAction::SpawnTask { .. }, NodeEvent::Performed) => {
                &&& next matches Step::Continue(later, _)
                &&& later@.done == state@.done + 1
            },
            _ => {
                &&& next matches Step::Continue(same, again)
                &&& same@ == state@
                &&& again == action
            },
        },
        next matches Step::Continue(later, following) ==> following == later@.pending(),
{
    let known = state@.learn(event);
    node_laws::lemma_network_starts_last(state@.plan);
    node_laws::lemma_network_starts_last(known.plan);
    lemma_first_reports(state@.plan);
    lemma_sequence_goes_on(known.plan);
}

/// A plan goes on past the first three actions.
proof fn lemma_sequence_goes_on(plan: NodePlan)
    ensures
        plan.sequence().len() >= 8,
{
}

/// A start-up begins with nothing done but what it was asked for, by preparing the configuration.
pub proof fn lemma_begins_with_configuration(
    setup: NodeSetup,
    hwbench: bool,
    start: (NodeStart, NodeAction),
)
    requires
        call_ensures(crate::node::start_node_impl, (setup, hwbench), start),
    ensures
        start.0@.plan.setup == setup,
        start.0@.plan.hwbench == hwbench,
        start.0@.done == 0,
        start.1 is PrepareNodeConfig,
{
}

/// The order in which a start-up that succeeds has worked. The node is configured, assembled,
/// connected to the relay chain and to its network, and its tasks are spawned. A benchmark, if
/// there is one, is printed next; an authority is warned if it is too slow; and where there is
/// telemetry it is reported. At last come the overseer, the tasks that follow the relay chain, on
/// an authority the collator, and the network. Nothing else is done.
pub proof fn lemma_order_of_success<E>(
    setup: NodeSetup,
    hwbench: bool,
    events: Seq<NodeEvent<E>>,
)
    requires
        node_laws::node_answers(setup, hwbench, events),
        node_laws::node_after(setup, hwbench, events) matches Step::Return(result) && result is Ok,
    ensures
        ({
            let trace = node_laws::node_trace(setup, hwbench, events);
            let n = trace.len();
            let authority = events[0] matches NodeEvent::ConfigPrepared { role } && role
                is Authority;
            let reports = events[1] matches NodeEvent::PartialBuilt(Ok(true));
            &&& n == events.len()
            &&& n == 8 + (if authority {
                1int
            } else {
                0
            }) + (if hwbench {
                1int
            } else {
                0
            }) + (if hwbench && authority {
                1int
            } else {
                0
            }) + (if hwbench && reports {
                1int
            } else {
                0
            })
            &&& trace[0] is PrepareNodeConfig
            &&& trace[1] is NewPartial
            &&& trace[2] is BuildRelayChainInterface
            &&& trace[3] is BuildNetwork
            &&& trace[4] is SpawnTasks
            &&& hwbench ==> trace[5] is PrintHwbench
            &&& hwbench && authority ==> trace[6] is WarnIfSlowHardware
            &&& hwbench && reports && authority ==> trace[7] is SpawnTask
            &&& hwbench && reports && !authority ==> trace[6] is SpawnTask
            &&& authority ==> trace[n - 4] is GetOverseerHandle && trace[n - 3]
                is StartRelayChainTasks && trace[n - 2] is StartConsensus
            &&& !authority ==> trace[n - 3] is GetOverseerHandle && trace[n - 2]
                is StartRelayChainTasks
            &&& trace[n - 1] is StartNetwork
        }),
{
    let before = events.drop_last();
    node_laws::lemma_asks_for_pending(setup, hwbench, before);
    lemma_takes_reports(setup, hwbench, before);
    lemma_keeps_what_was_asked(setup, hwbench, before);
    if let Step::Continue(progress, _) = node_laws::node_after(setup, hwbench, before) {
        let last = events.last();
        lemma_first_reports(progress.plan);
        lemma_sequence_goes_on(progress.learn(last).plan);
        assert(progress.learn(last).plan == progress.plan);
        assert(events.len() == progress.plan.sequence().len());
        assert(events[0] == before[0]);
        assert(events[1] == before[1]);
        lemma_trace_is_plan(setup, hwbench, before);
        assert(node_laws::node_trace(setup, hwbench, events) =~= progress.plan.sequence());
        lemma_order_of_plan(progress.plan);
    }
}

/// The actions of a start-up that goes on are those of its plan so far.
proof fn lemma_trace_is_plan<E>(setup: NodeSetup, hwbench: bool, events: Seq<NodeEvent<E>>)
    requires
        node_laws::node_answers(setup, hwbench, events),
    ensures
        node_laws::node_after(setup, hwbench, events) matches Step::Continue(progress, _) ==> {
            &&& progress.done == events.len()
            &&& node_laws::node_trace(setup, hwbench, events) == progress.plan.sequence().take(
                (events.len() + 1) as int,
            )
        },
{
    if node_laws::node_after(setup, hwbench, events) is Continue {
        node_laws::lemma_unfinished_goes_well(setup, hwbench, events);
        node_laws::lemma_startup_follows_sequence(setup, hwbench, events);
    }
}

/// The order of the actions of a plan.
proof fn lemma_order_of_plan(plan: NodePlan)
    ensures
        ({
            let sequence = plan.sequence();
            let n = sequence.len();
            &&& n == 8 + (if plan.validator {
                1int
            } else {
                0
            }) + (if plan.hwbench {
                1int
            } else {
                0
            }) + (if plan.hwbench && plan.validator {
                1int
            } else {
                0
            }) + (if plan.hwbench && plan.telemetry {
                1int
            } else {
                0
            })
            &&& sequence[0] is PrepareNodeConfig
            &&& sequence[1] is NewPartial
            &&& sequence[2] is BuildRelayChainInterface
            &&& sequence[3] is BuildNetwork
            &&& sequence[4] is SpawnTasks
            &&& plan.hwbench ==> sequence[5] is PrintHwbench
            &&& plan.hwbench && plan.validator ==> sequence[6] is WarnIfSlowHardware
            &&& plan.hwbench && plan.telemetry && plan.validator ==> sequence[7] is SpawnTask
            &&& plan.hwbench && plan.telemetry && !plan.validator ==> sequence[6] is SpawnTask
            &&& plan.validator ==> sequence[n - 4] is GetOverseerHandle && sequence[n - 3]
                is StartRelayChainTasks && sequence[n - 2] is StartConsensus
            &&& !plan.validator ==> sequence[n - 3] is GetOverseerHandle && sequence[n - 2]
                is StartRelayChainTasks
            &&& sequence[n - 1] is StartNetwork
        }),
{
    let sequence = plan.sequence();
    let assembly = plan.assembly();
    let report = plan.hwbench_report();
    let launch = plan.launch();
    lemma_order_of_report(plan);
    lemma_order_of_launch(plan);
    assert(sequence.len() == 5 + report.len() + launch.len());
    assert(forall|i: int| 0 <= i < 5 ==> sequence[i] == #[trigger] assembly[i]);
    assert(forall|i: int| 0 <= i < report.len() ==> sequence[5 + i] == #[trigger] report[i]);
    let end = (5 + report.len()) as int;
    assert(forall|i: int| 0 <= i < launch.len() ==> sequence[end + i] == #[trigger] launch[i]);
    if plan.hwbench {
        assert(sequence[5] == report[0]);
        assert(plan.validator ==> sequence[6] == report[1]);
        assert(plan.telemetry && plan.validator ==> sequence[7] == report[2]);
        assert(plan.telemetry && !plan.validator ==> sequence[6] == report[1]);
    }
    assert(sequence[end] == launch[0]);
    assert(sequence[end + 1] == launch[1]);
    assert(sequence[end + 2] == launch[2]);
    assert(plan.validator ==> sequence[end + 3] == launch[3]);
}

/// The order of the actions that report a benchmark.
proof fn lemma_order_of_report(plan: NodePlan)
    ensures
        ({
            let report = plan.hwbench_report();
            &&& !plan.hwbench ==> report.len() == 0
            &&& plan.hwbench ==> {
                &&& report.len() == 1 + (if plan.validator {
                    1int
                } else {
                    0
                }) + (if plan.telemetry {
                    1int
                } else {
                    0
                })
                &&& report[0] is PrintHwbench
                &&& plan.validator ==> report[1] is WarnIfSlowHardware
                &&& plan.telemetry ==> report[report.len() - 1] is SpawnTask
            }
        }),
{
}

/// The order of the actions that set a node to work.
proof fn lemma_order_of_launch(plan: NodePlan)
    ensures
        ({
            let launch = plan.launch();
            &&& launch.len() == if plan.validator {
                4int
            } else {
                3
            }
            &&& launch[0] is GetOverseerHandle
            &&& launch[1] is StartRelayChainTasks
            &&& plan.validator ==> launch[2] is StartConsensus
            &&& launch[launch.len() - 1] is StartNetwork
        }),
{
}

/// A start-up would collate without a key exactly when the tasks that follow the relay chain have
/// been started on an authority whose relay chain interface came without a key.
pub proof fn lemma_lacks_key_by_reports<E>(
    setup: NodeSetup,
    hwbench: bool,
    events: Seq<NodeEvent<E>>,
    event: NodeEvent<E>,
)
    requires
        node_laws::node_answers(setup, hwbench, events),
    ensures
        node_laws::node_after(setup, hwbench, events) matches Step::Continue(progress, action) ==> (
        progress.lacks_collator_key(event) <==> {
            &&& action is StartRelayChainTasks
            &&& event matches NodeEvent::Completed(Ok(_))
            &&& events[0] matches NodeEvent::ConfigPrepared { role }
            &&& role is Authority
            &&& events[2] matches NodeEvent::RelayChainInterfaceBuilt(Ok(false))
        }),
{
    lemma_takes_reports(setup, hwbench, events);
    node_laws::lemma_asks_for_pending(setup, hwbench, events);
    if let Step::Continue(progress, action) = node_laws::node_after(setup, hwbench, events) {
        lemma_first_reports(progress.plan);
        if action is StartRelayChainTasks {
            lemma_late_actions(progress.plan);
            lemma_third_report(setup, hwbench, events);
        }
    }
}

/// The tasks that follow the relay chain are started after the first three actions.
proof fn lemma_late_actions(plan: NodePlan)
    ensures
        forall|i: int|
            #![trigger plan.sequence()[i]]
            0 <= i < plan.sequence().len() && plan.sequence()[i] is StartRelayChainTasks ==> i > 2,
{
}

/// A start-up that has come past the relay chain interface has been told of it.
proof fn lemma_third_report<E>(setup: NodeSetup, hwbench: bool, events: Seq<NodeEvent<E>>)
    requires
        node_laws::node_answers(setup, hwbench, events),
        node_laws::node_after(setup, hwbench, events) is Continue,
        events.len() > 2,
    ensures
        events[2] matches NodeEvent::RelayChainInterfaceBuilt(Ok(_)),
    decreases events.len(),
{
    let before = events.drop_last();
    node_laws::lemma_asks_for_pending(setup, hwbench, before);
    lemma_takes_reports(setup, hwbench, before);
    if let Step::Continue(progress, _) = node_laws::node_after(setup, hwbench, before) {
        lemma_first_reports(progress.plan);
        if events.len() > 3 {
            lemma_third_report(setup, hwbench, before);
            assert(before[2] == events[2]);
        } else {
            assert(events[2] == events.last());
        }
    }
}

/// A start-up tells of a missing collator key what it is.
pub proof fn lemma_tells_of_missing_key<E>(state: NodeStart, event: NodeEvent<E>, lacks: bool)
    requires
        call_ensures(NodeStart::lacks_collator_key::<E>, (&state, &event), lacks),
    ensures
        lacks <==> {
            &&& state@.pending() is StartRelayChainTasks
            &&& event matches NodeEvent::Completed(Ok(_))
            &&& state@.plan.validator
            &&& !state@.collator_key
        },
{
}

/// End to end, a node that comes to collate does so for its own parachain, at the pace of the relay
/// chain, in the way that its setup picks.
pub proof fn lemma_collates_for_its_parachain<E, H>(
    setup: NodeSetup,
    hwbench: bool,
    events: Seq<NodeEvent<E>>,
)
    ensures
        node_laws::node_after(setup, hwbench, events) matches Step::Continue(
            _,
            NodeAction::StartConsensus { starter, args },
        ) ==> match crate::consensus::consensus_plan::<H>(starter, args) {
            ConsensusPlan::RelayChain(consensus) => {
                &&& setup.consensus is RelayChain
                &&& consensus.para_id == setup.para_id
            },
            ConsensusPlan::LookaheadAura(consensus) => {
                &&& setup.consensus is LookaheadAura
                &&& consensus.params.para_id == setup.para_id
                &&& consensus.params.relay_chain_slot_duration_ms == 6000
            },
            ConsensusPlan::SlotBasedAura(consensus) => {
                &&& setup.consensus is SlotBasedAura
                &&& consensus.params.para_id == setup.para_id
                &&& consensus.params.relay_chain_slot_duration_ms == 6000
            },
        },
{
    lemma_actions_carry_the_setup(setup, hwbench, events);
    if let Step::Continue(_, action) = node_laws::node_after(setup, hwbench, events) {
        let trace = node_laws::node_trace(setup, hwbench, events);
        assert(trace[trace.len() - 1] == action);
        if let NodeAction::StartConsensus { starter, args } = action {
            crate::consensus::lemma_plan_keeps_args::<H>(starter, args);
        }
    }
}

} // verus!
