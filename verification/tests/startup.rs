use parachain_service::chains::{
    start_asset_hub_async_backing_node, start_basic_async_backing_node,
    start_contracts_rococo_node, start_generic_aura_async_backing_node,
    start_rococo_parachain_node, start_shell_node,
};
use parachain_service::config::Role;
use parachain_service::consensus::{
    CollatorSybilResistance, ConsensusArgs, ConsensusStarter, DARecoveryProfile, ParaId,
    RELAY_CHAIN_SLOT_DURATION_MS,
};
use parachain_service::import_queue::ImportQueue;
use parachain_service::node::{
    start_node_impl, NodeAction, NodeEvent, NodeSetup, NodeStart, RpcExtensions, ServiceError,
};
use parachain_service::step::Step;
use parachain_service::tasks::Task;

const PARA_ID: ParaId = 2000;

/// What the outside world makes of a node.
#[derive(Clone, Copy)]
struct World {
    role: Role,
    telemetry: bool,
    collator_key: bool,
}

const AUTHORITY: World = World { role: Role::Authority, telemetry: true, collator_key: true };
const FULL_NODE: World = World { role: Role::Full, telemetry: false, collator_key: false };

fn setup() -> NodeSetup {
    NodeSetup {
        para_id: PARA_ID,
        sybil_resistance_level: CollatorSybilResistance::Resistant,
        rpc_extensions: RpcExtensions::Parachain,
        import_queue: ImportQueue::RelayToAura,
        consensus: ConsensusStarter::LookaheadAura,
    }
}

fn success(world: World, action: NodeAction) -> NodeEvent<u8> {
    match action {
        NodeAction::PrepareNodeConfig => NodeEvent::ConfigPrepared { role: world.role },
        NodeAction::NewPartial { .. } => NodeEvent::PartialBuilt(Ok(world.telemetry)),
        NodeAction::BuildRelayChainInterface { .. } => {
            NodeEvent::RelayChainInterfaceBuilt(Ok(world.collator_key))
        }
        NodeAction::BuildNetwork { .. }
        | NodeAction::SpawnTasks { .. }
        | NodeAction::GetOverseerHandle
        | NodeAction::StartRelayChainTasks { .. }
        | NodeAction::StartConsensus { .. } => NodeEvent::Completed(Ok(())),
        NodeAction::PrintHwbench
        | NodeAction::WarnIfSlowHardware
        | NodeAction::SpawnTask { .. }
        | NodeAction::StartNetwork => NodeEvent::Performed,
    }
}

fn failure(action: NodeAction, error: u8) -> Option<NodeEvent<u8>> {
    match action {
        NodeAction::NewPartial { .. } => Some(NodeEvent::PartialBuilt(Err(error))),
        NodeAction::BuildRelayChainInterface { .. } => {
            Some(NodeEvent::RelayChainInterfaceBuilt(Err(error)))
        }
        NodeAction::BuildNetwork { .. }
        | NodeAction::SpawnTasks { .. }
        | NodeAction::GetOverseerHandle
        | NodeAction::StartRelayChainTasks { .. }
        | NodeAction::StartConsensus { .. } => Some(NodeEvent::Completed(Err(error))),
        _ => None,
    }
}

/// Runs a start-up to its end, failing the action at the given place. Returns the actions that
/// were asked for and the result.
fn run(
    start: (NodeStart, NodeAction),
    world: World,
    fail_at: Option<usize>,
) -> (Vec<NodeAction>, Result<(), ServiceError<u8>>) {
    let (mut state, mut action) = start;
    let mut trace = vec![action];
    loop {
        assert_eq!(state.action(), action);
        let event = match fail_at {
            Some(place) if place + 1 == trace.len() => failure(action, 9).expect("can fail"),
            _ => success(world, action),
        };
        assert!(!state.lacks_collator_key(&event));
        match state.step(event) {
            Step::Continue(next, next_action) => {
                state = next;
                action = next_action;
                trace.push(action);
            }
            Step::Return(result) => return (trace, result),
        }
    }
}

fn consensus_args(telemetry: bool) -> ConsensusArgs {
    ConsensusArgs { para_id: PARA_ID, relay_chain_slot_duration_ms: 6000, telemetry }
}

#[test]
fn validator_with_everything() {
    let (trace, result) = run(start_node_impl(setup(), true), AUTHORITY, None);
    assert!(result.is_ok());
    assert_eq!(
        trace,
        vec![
            NodeAction::PrepareNodeConfig,
            NodeAction::NewPartial { import_queue: ImportQueue::RelayToAura },
            NodeAction::BuildRelayChainInterface { telemetry: true, hwbench: true },
            NodeAction::BuildNetwork {
                para_id: PARA_ID,
                sybil_resistance_level: CollatorSybilResistance::Resistant,
            },
            NodeAction::SpawnTasks {
                rpc_extensions: RpcExtensions::Parachain,
                telemetry: true,
            },
            NodeAction::PrintHwbench,
            NodeAction::WarnIfSlowHardware,
            NodeAction::SpawnTask { task: Task::TelemetryHwbench },
            NodeAction::GetOverseerHandle,
            NodeAction::StartRelayChainTasks {
                para_id: PARA_ID,
                da_recovery_profile: DARecoveryProfile::Collator,
                relay_chain_slot_duration_ms: 6000,
            },
            NodeAction::StartConsensus {
                starter: ConsensusStarter::LookaheadAura,
                args: consensus_args(true),
            },
            NodeAction::StartNetwork,
        ]
    );
    assert_eq!(trace.len(), 12);
}

#[test]
fn full_node_with_nothing() {
    let (trace, result) = run(start_node_impl(setup(), false), FULL_NODE, None);
    assert!(result.is_ok());
    assert_eq!(
        trace,
        vec![
            NodeAction::PrepareNodeConfig,
            NodeAction::NewPartial { import_queue: ImportQueue::RelayToAura },
            NodeAction::BuildRelayChainInterface { telemetry: false, hwbench: false },
            NodeAction::BuildNetwork {
                para_id: PARA_ID,
                sybil_resistance_level: CollatorSybilResistance::Resistant,
            },
            NodeAction::SpawnTasks {
                rpc_extensions: RpcExtensions::Parachain,
                telemetry: false,
            },
            NodeAction::GetOverseerHandle,
            NodeAction::StartRelayChainTasks {
                para_id: PARA_ID,
                da_recovery_profile: DARecoveryProfile::FullNode,
                relay_chain_slot_duration_ms: 6000,
            },
            NodeAction::StartNetwork,
        ]
    );
    assert_eq!(trace.len(), 8);
}

#[test]
fn hwbench_reporting_by_role_and_telemetry() {
    for validator in [false, true] {
        for telemetry in [false, true] {
            for hwbench in [false, true] {
                let world = World {
                    role: if validator { Role::Authority } else { Role::Full },
                    telemetry,
                    collator_key: validator,
                };
                let (trace, _) = run(start_node_impl(setup(), hwbench), world, None);
                let has = |action: NodeAction| trace.contains(&action);
                assert_eq!(has(NodeAction::PrintHwbench), hwbench);
                assert_eq!(has(NodeAction::WarnIfSlowHardware), hwbench && validator);
                assert_eq!(
                    has(NodeAction::SpawnTask { task: Task::TelemetryHwbench }),
                    hwbench && telemetry
                );
                let collates =
                    trace.iter().any(|a| matches!(a, NodeAction::StartConsensus { .. }));
                assert_eq!(collates, validator);
                assert_eq!(trace.last(), Some(&NodeAction::StartNetwork));
                let starts = trace.iter().filter(|a| **a == NodeAction::StartNetwork).count();
                assert_eq!(starts, 1);
            }
        }
    }
}

#[test]
fn every_failure_ends_the_startup() {
    let (whole, _) = run(start_node_impl(setup(), true), AUTHORITY, None);
    let mut failing = 0;
    for place in 0..whole.len() {
        if failure(whole[place], 9).is_none() {
            continue;
        }
        failing += 1;
        let (trace, result) = run(start_node_impl(setup(), true), AUTHORITY, Some(place));
        assert_eq!(trace[..], whole[..place + 1]);
        let of_interface = matches!(
            whole[place],
            NodeAction::BuildRelayChainInterface { .. } | NodeAction::GetOverseerHandle
        );
        match result {
            Err(ServiceError::Application(error)) => assert!(of_interface && error == 9),
            Err(ServiceError::Service(error)) => assert!(!of_interface && error == 9),
            Ok(()) => panic!("the failure was lost"),
        }
    }
    assert_eq!(failing, 7);
}

#[test]
fn success_means_that_the_network_was_started() {
    for (hwbench, world) in [(true, AUTHORITY), (false, FULL_NODE)] {
        let (whole, _) = run(start_node_impl(setup(), hwbench), world, None);
        let failures = (0..whole.len()).filter(|i| failure(whole[*i], 9).is_some()).map(Some);
        for fail_at in std::iter::once(None).chain(failures) {
            let (trace, result) = run(start_node_impl(setup(), hwbench), world, fail_at);
            let starts = trace.iter().filter(|a| **a == NodeAction::StartNetwork).count();
            assert_eq!(starts, if result.is_ok() { 1 } else { 0 });
            assert_eq!(result.is_ok(), fail_at.is_none());
        }
    }
}

#[test]
fn an_event_out_of_turn_changes_nothing() {
    let (state, action) = start_node_impl(setup(), false);
    match state.step(NodeEvent::<u8>::Completed(Err(1))) {
        Step::Continue(state, again) => {
            assert_eq!(again, action);
            assert_eq!(state.action(), NodeAction::PrepareNodeConfig);
        }
        Step::Return(_) => panic!("returned on an event out of turn"),
    }
}

#[test]
fn validator_without_key_is_recognised() {
    let world = World { collator_key: false, ..AUTHORITY };
    let (mut state, mut action) = start_node_impl(setup(), false);
    loop {
        let event = success(world, action);
        if state.lacks_collator_key(&event) {
            assert!(matches!(action, NodeAction::StartRelayChainTasks { .. }));
            break;
        }
        match state.step(event) {
            Step::Continue(next, next_action) => {
                state = next;
                action = next_action;
            }
            Step::Return(_) => panic!("a validator started without a key"),
        }
    }
    // A failure of the pending action is not held up by the missing key.
    let failed = NodeEvent::Completed(Err(3u8));
    assert!(!state.lacks_collator_key(&failed));
    assert!(matches!(
        state.step(failed),
        Step::Return(Err(ServiceError::Service(3)))
    ));
}

/// The setup that a start-up reveals through its actions.
fn observed(start: (NodeStart, NodeAction)) -> NodeSetup {
    let (trace, result) = run(start, AUTHORITY, None);
    assert!(result.is_ok());
    let mut seen = setup();
    for action in trace {
        match action {
            NodeAction::NewPartial { import_queue } => seen.import_queue = import_queue,
            NodeAction::BuildNetwork { para_id, sybil_resistance_level } => {
                seen.para_id = para_id;
                seen.sybil_resistance_level = sybil_resistance_level;
            }
            NodeAction::SpawnTasks { rpc_extensions, .. } => seen.rpc_extensions = rpc_extensions,
            NodeAction::StartConsensus { starter, args } => {
                assert_eq!(args.para_id, seen.para_id);
                seen.consensus = starter;
            }
            _ => {}
        }
    }
    seen
}

fn aura_setup(
    para_id: ParaId,
    slot_based: bool,
    rpc_extensions: RpcExtensions,
    import_queue: ImportQueue,
) -> NodeSetup {
    NodeSetup {
        para_id,
        sybil_resistance_level: CollatorSybilResistance::Resistant,
        rpc_extensions,
        import_queue,
        consensus: if slot_based {
            ConsensusStarter::SlotBasedAura
        } else {
            ConsensusStarter::LookaheadAura
        },
    }
}

#[test]
fn aura_chains() {
    for slot_based in [false, true] {
        assert_eq!(
            observed(start_rococo_parachain_node(1, slot_based, false)),
            aura_setup(1, slot_based, RpcExtensions::Parachain, ImportQueue::Aura)
        );
        assert_eq!(
            observed(start_generic_aura_async_backing_node(2, slot_based, true)),
            aura_setup(2, slot_based, RpcExtensions::Parachain, ImportQueue::RelayToAura)
        );
        assert_eq!(
            observed(start_asset_hub_async_backing_node(3, slot_based, false)),
            aura_setup(3, slot_based, RpcExtensions::Parachain, ImportQueue::RelayToAura)
        );
        assert_eq!(
            observed(start_basic_async_backing_node(4, slot_based, true)),
            aura_setup(4, slot_based, RpcExtensions::Empty, ImportQueue::RelayToAura)
        );
        assert_eq!(
            observed(start_contracts_rococo_node(5, slot_based, false)),
            aura_setup(5, slot_based, RpcExtensions::Contracts, ImportQueue::Aura)
        );
    }
}

#[test]
fn shell_chain() {
    assert_eq!(
        observed(start_shell_node(6, false)),
        NodeSetup {
            para_id: 6,
            sybil_resistance_level: CollatorSybilResistance::Unresistant,
            rpc_extensions: RpcExtensions::Empty,
            import_queue: ImportQueue::Shell,
            consensus: ConsensusStarter::RelayChain,
        }
    );
}

/// The actions of a run, with other RPC extensions.
fn with_rpc(actions: Vec<NodeAction>, other: RpcExtensions) -> Vec<NodeAction> {
    let change = |action| match action {
        NodeAction::SpawnTasks { telemetry, .. } => {
            NodeAction::SpawnTasks { rpc_extensions: other, telemetry }
        }
        action => action,
    };
    actions.into_iter().map(change).collect()
}

#[test]
fn flag_matters_to_authorities_only() {
    let starts: [fn(ParaId, bool, bool) -> (NodeStart, NodeAction); 5] = [
        start_rococo_parachain_node,
        start_generic_aura_async_backing_node,
        start_asset_hub_async_backing_node,
        start_basic_async_backing_node,
        start_contracts_rococo_node,
    ];
    for start in starts {
        for fail_at in [None, Some(2), Some(5)] {
            let (lookahead, first) = run(start(7, false, false), FULL_NODE, fail_at);
            let (slot_based, second) = run(start(7, true, false), FULL_NODE, fail_at);
            assert_eq!(lookahead, slot_based);
            assert_eq!(first.is_ok(), second.is_ok());
            assert_eq!(first.is_ok(), fail_at.is_none());
        }
        let (lookahead, _) = run(start(7, false, false), AUTHORITY, None);
        let (slot_based, _) = run(start(7, true, false), AUTHORITY, None);
        assert_ne!(lookahead, slot_based);
    }
}

#[test]
fn chains_with_the_same_queue_start_alike() {
    for world in [AUTHORITY, FULL_NODE] {
        for fail_at in [None, Some(1), Some(4)] {
            let (rococo, _) = run(start_rococo_parachain_node(8, true, true), world, fail_at);
            let (contracts, _) = run(start_contracts_rococo_node(8, true, true), world, fail_at);
            assert_eq!(contracts, with_rpc(rococo, RpcExtensions::Contracts));
            let generic = start_generic_aura_async_backing_node(8, false, true);
            let (generic, _) = run(generic, world, fail_at);
            let asset_hub = start_asset_hub_async_backing_node(8, false, true);
            let (asset_hub, _) = run(asset_hub, world, fail_at);
            assert_eq!(asset_hub, generic);
            let (basic, _) = run(start_basic_async_backing_node(8, false, true), world, fail_at);
            assert_eq!(basic, with_rpc(generic, RpcExtensions::Empty));
        }
    }
}

#[test]
fn relay_chain_slots_last_six_seconds() {
    assert_eq!(RELAY_CHAIN_SLOT_DURATION_MS, 6000);
}
