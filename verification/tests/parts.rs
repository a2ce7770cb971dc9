use parachain_service::aura::{
    wait_for_aura, CollatorAction, CollatorEvent, CollatorTask, WaitAction, WaitEvent, WaitForAura,
};
use parachain_service::code_hash::code_hash_provider;
use parachain_service::consensus::{
    start_lookahead_aura_consensus, start_relay_chain_consensus, start_slot_based_aura_consensus,
    AuraParams, ConsensusArgs, ConsensusPlan, ConsensusStarter, LookaheadConsensus,
    RelayChainConsensus, SlotBasedConsensus, SlotBasedParams,
};
use parachain_service::hardware::warn_if_slow_hardware;
use parachain_service::import_queue::{
    build_aura_import_queue, build_relay_to_aura_import_queue, build_shell_import_queue,
    BlockImportParams, ImportQueue, ImportQueuePlan, QueueVerifier, SlotDurationQuery,
    SlotDurationSource, Verifier, VerifyWith,
};
use parachain_service::inherents::{
    create_inherent_data_providers, create_inherent_data_providers_at, inherent_data_at,
    require_parachain_inherent, SlotAndTimestamp,
};
use parachain_service::step::Step;
use parachain_service::tasks::Task;

/// Feeds a wait with events and returns what it asked for, and what it came to if it is over.
fn wait(events: Vec<WaitEvent<u32, &'static str>>) -> (Vec<String>, Option<bool>) {
    let (mut state, action) = wait_for_aura::<u32>();
    let mut trace = vec![format!("{:?}", action)];
    let n = events.len();
    for (i, event) in events.into_iter().enumerate() {
        match state.step(event) {
            Step::Continue(next, action) => {
                state = next;
                trace.push(format!("{:?}", action));
            }
            Step::Return(found) => {
                assert_eq!(i + 1, n);
                return (trace, Some(found));
            }
        }
    }
    (trace, None)
}

fn names(actions: Vec<WaitAction<u32>>) -> Vec<String> {
    actions.iter().map(|action| format!("{:?}", action)).collect()
}

#[test]
fn aura_at_the_finalized_block() {
    let (trace, found) = wait(vec![WaitEvent::FinalizedHash(1), WaitEvent::AuraApi(Ok(true))]);
    assert_eq!(
        trace,
        names(vec![WaitAction::ReadFinalizedHash, WaitAction::QueryAuraApi { at: 1 }])
    );
    assert_eq!(found, Some(true));
}

#[test]
fn aura_at_a_later_block() {
    let (trace, found) = wait(vec![
        WaitEvent::FinalizedHash(1),
        WaitEvent::AuraApi(Ok(false)),
        WaitEvent::Subscribed,
        WaitEvent::Notification(Some(2)),
        WaitEvent::AuraApi(Err("no state")),
        WaitEvent::Notification(Some(3)),
        WaitEvent::AuraApi(Ok(true)),
    ]);
    assert_eq!(
        trace,
        names(vec![
            WaitAction::ReadFinalizedHash,
            WaitAction::QueryAuraApi { at: 1 },
            WaitAction::Subscribe,
            WaitAction::AwaitNotification,
            WaitAction::QueryAuraApi { at: 2 },
            WaitAction::AwaitNotification,
            WaitAction::QueryAuraApi { at: 3 },
        ])
    );
    assert_eq!(found, Some(true));
}

#[test]
fn wait_ends_with_the_notifications() {
    let (trace, found) = wait(vec![
        WaitEvent::FinalizedHash(1),
        WaitEvent::AuraApi(Err("no state")),
        WaitEvent::Subscribed,
        WaitEvent::Notification(None),
    ]);
    assert_eq!(
        trace,
        names(vec![
            WaitAction::ReadFinalizedHash,
            WaitAction::QueryAuraApi { at: 1 },
            WaitAction::Subscribe,
            WaitAction::AwaitNotification,
        ])
    );
    // Aura never appeared.
    assert_eq!(found, Some(false));
}

#[test]
fn wait_ignores_events_out_of_turn() {
    let (trace, found) = wait(vec![WaitEvent::AuraApi(Ok(true)), WaitEvent::Notification(None)]);
    assert_eq!(trace, names(vec![WaitAction::ReadFinalizedHash; 3]));
    assert_eq!(found, None);
    assert!(matches!(WaitForAura::<u32>::Subscription.action(), WaitAction::Subscribe));
}

/// The next state of a collator task that goes on.
fn go_on(
    task: CollatorTask<u32>,
    event: CollatorEvent<u32, u8>,
    expected: CollatorAction<u32>,
) -> CollatorTask<u32> {
    match task.step(event) {
        Step::Continue(task, action) => {
            assert_eq!(action, expected);
            assert_eq!(task.action(), expected);
            task
        }
        Step::Return(()) => panic!("the task ended"),
    }
}

fn collator_runs_after_the_wait(task: Task) {
    let first = CollatorAction::Wait(WaitAction::ReadFinalizedHash);
    let collator = CollatorTask::<u32>::begin(task);
    assert_eq!(collator.action(), first);
    // The collator has not started, so it cannot have ended.
    let collator = go_on(collator, CollatorEvent::Ended, first);
    let collator = go_on(
        collator,
        CollatorEvent::Waited(WaitEvent::FinalizedHash(4)),
        CollatorAction::Wait(WaitAction::QueryAuraApi { at: 4 }),
    );
    let run = CollatorAction::Run { task };
    let collator = go_on(collator, CollatorEvent::Waited(WaitEvent::AuraApi(Ok(true))), run);
    let collator = go_on(collator, CollatorEvent::Waited(WaitEvent::Notification(None)), run);
    assert!(matches!(collator.step::<u8>(CollatorEvent::Ended), Step::Return(())));
}

#[test]
fn lookahead_collator_runs_after_the_wait() {
    collator_runs_after_the_wait(Task::Aura);
}

#[test]
fn slot_based_collator_runs_after_the_wait() {
    collator_runs_after_the_wait(Task::Collation);
    collator_runs_after_the_wait(Task::BlockBuilder);
}

#[test]
fn collator_does_not_run_after_a_wait_in_vain() {
    for task in [Task::Aura, Task::Collation, Task::BlockBuilder] {
        let collator = CollatorTask::<u32>::begin(task);
        let collator = go_on(
            collator,
            CollatorEvent::Waited(WaitEvent::FinalizedHash(4)),
            CollatorAction::Wait(WaitAction::QueryAuraApi { at: 4 }),
        );
        let collator = go_on(
            collator,
            CollatorEvent::Waited(WaitEvent::AuraApi(Ok(false))),
            CollatorAction::Wait(WaitAction::Subscribe),
        );
        let collator = go_on(
            collator,
            CollatorEvent::Waited(WaitEvent::Subscribed),
            CollatorAction::Wait(WaitAction::AwaitNotification),
        );
        let last = CollatorEvent::Waited(WaitEvent::Notification(None));
        assert!(matches!(collator.step::<u8>(last), Step::Return(())));
    }
}

#[test]
fn validation_code_hashes() {
    let wasm = vec![0, 97, 115, 109, 1, 0, 0, 0];
    assert_eq!(
        code_hash_provider(Ok::<Vec<u8>, u8>(wasm)),
        Some(vec![
            246, 165, 219, 240, 128, 233, 201, 215, 131, 65, 69, 101, 59, 206, 76, 140, 222, 214,
            46, 102, 77, 125, 220, 219, 92, 82, 111, 88, 119, 0, 109, 116,
        ])
    );
    assert_eq!(
        code_hash_provider(Ok::<Vec<u8>, u8>(vec![])),
        Some(vec![
            14, 87, 81, 192, 38, 229, 67, 178, 232, 171, 46, 176, 96, 153, 218, 161, 209, 229,
            223, 71, 119, 143, 119, 135, 250, 171, 69, 205, 241, 47, 227, 168,
        ])
    );
    assert_eq!(code_hash_provider(Err::<Vec<u8>, u8>(1)), None);
}

#[test]
fn slots_of_timestamps() {
    let slot = |timestamp, duration| inherent_data_at(timestamp, duration).slot;
    assert_eq!(inherent_data_at(12_001, 6000), SlotAndTimestamp { slot: 2, timestamp: 12_001 });
    assert_eq!(slot(11_999, 6000), 1);
    assert_eq!(slot(12_000, 6000), 2);
    assert_eq!(slot(0, 6000), 0);
    assert_eq!(slot(u64::MAX, 1), u64::MAX);
    assert_eq!(slot(5, u64::MAX), 0);
}

#[test]
fn slot_of_the_present() {
    let first = create_inherent_data_providers(6000);
    assert_eq!(first.slot, first.timestamp / 6000);
    // The first of January 2024, in milliseconds.
    assert!(first.timestamp > 1_704_067_200_000);
    let second = create_inherent_data_providers_at(Ok::<u64, u8>(12_000)).unwrap();
    assert_eq!(second.slot, second.timestamp / 12_000);
    assert_eq!(create_inherent_data_providers_at(Err::<u64, u8>(3)), Err(3));
}

#[test]
fn parachain_inherent_is_required() {
    assert_eq!(require_parachain_inherent(Some(5)), Ok(5));
    assert_eq!(
        require_parachain_inherent(None::<u8>),
        Err("Failed to create parachain inherent".to_string())
    );
}

#[test]
fn slow_hardware_warning() {
    assert_eq!(warn_if_slow_hardware(Ok(())), None);
    assert_eq!(
        warn_if_slow_hardware(Err("[CPU]".to_string())).unwrap(),
        "⚠️  The hardware does not meet the minimal requirements [CPU] for role 'Authority' find out more at:\n\
        https://wiki.polkadot.network/docs/maintain-guides-how-to-validate-polkadot#reference-hardware"
    );
}

#[test]
fn import_queues() {
    assert_eq!(
        build_aura_import_queue(Ok::<u64, u8>(12_000), true),
        Ok(ImportQueuePlan {
            verifier: QueueVerifier::Aura {
                slot_duration: SlotDurationSource::Fixed { slot_duration: 12_000 },
            },
            telemetry: true,
        })
    );
    assert_eq!(build_aura_import_queue(Err::<u64, u8>(2), true), Err(2));
    assert_eq!(
        build_shell_import_queue(true),
        ImportQueuePlan {
            verifier: QueueVerifier::RelayChain,
            telemetry: false,
        }
    );
    assert_eq!(
        build_relay_to_aura_import_queue(true),
        ImportQueuePlan {
            verifier: QueueVerifier::RelayToAura {
                slot_duration: SlotDurationSource::AtParent,
            },
            telemetry: true,
        }
    );
}

#[test]
fn import_queues_by_name() {
    let shell = ImportQueuePlan { verifier: QueueVerifier::RelayChain, telemetry: false };
    for telemetry in [false, true] {
        let aura = ImportQueuePlan {
            verifier: QueueVerifier::Aura {
                slot_duration: SlotDurationSource::Fixed { slot_duration: 6000 },
            },
            telemetry,
        };
        let relay_to_aura = ImportQueuePlan {
            verifier: QueueVerifier::RelayToAura { slot_duration: SlotDurationSource::AtParent },
            telemetry,
        };
        assert_eq!(ImportQueue::Aura.plan(Some(Ok::<u64, u8>(6000)), telemetry), Some(Ok(aura)));
        assert_eq!(ImportQueue::Aura.plan(Some(Err::<u64, u8>(4)), telemetry), Some(Err(4)));
        assert_eq!(ImportQueue::Aura.plan(None::<Result<u64, u8>>, telemetry), None);
        for answer in [None, Some(Ok(6000)), Some(Err(4u8))] {
            assert_eq!(ImportQueue::Shell.plan(answer, telemetry), Some(Ok(shell)));
            assert_eq!(ImportQueue::RelayToAura.plan(answer, telemetry), Some(Ok(relay_to_aura)));
        }
    }
    assert!(ImportQueue::Aura.needs_slot_duration());
    assert!(!ImportQueue::Shell.needs_slot_duration());
    assert!(!ImportQueue::RelayToAura.needs_slot_duration());
}

#[test]
fn slot_durations_are_fixed_or_asked_at_the_parent() {
    for parent_hash in [1u32, 2] {
        assert_eq!(
            SlotDurationSource::Fixed { slot_duration: 6000 }.query(parent_hash),
            SlotDurationQuery::Known { slot_duration: 6000 }
        );
        assert_eq!(
            SlotDurationSource::AtParent.query(parent_hash),
            SlotDurationQuery::AskAt { at: parent_hash }
        );
    }
}

#[test]
fn verification_follows_the_parent_runtime() {
    let verifier = Verifier::new(BlockImportParams { parent_hash: 8u32, block: "block" });
    assert_eq!(verifier.asks_at(), 8);
    match verifier.verify(true) {
        VerifyWith::Aura(params) => assert_eq!((params.parent_hash, params.block), (8, "block")),
        VerifyWith::RelayChain(_) => panic!("Aura was ignored"),
    }
    let verifier = Verifier::new(BlockImportParams { parent_hash: 9u32, block: "other" });
    match verifier.verify(false) {
        VerifyWith::RelayChain(params) => {
            assert_eq!((params.parent_hash, params.block), (9, "other"))
        }
        VerifyWith::Aura(_) => panic!("Aura was made up"),
    }
}

#[test]
fn collators() {
    let args = ConsensusArgs {
        para_id: 1000,
        relay_chain_slot_duration_ms: 6000,
        telemetry: true,
    };
    let relay_chain = RelayChainConsensus { para_id: 1000, telemetry: true };
    let lookahead = LookaheadConsensus {
        params: AuraParams {
            para_id: 1000,
            relay_chain_slot_duration_ms: 6000,
            authoring_duration_ms: 1500,
            reinitialize: false,
        },
        telemetry: true,
        task: CollatorTask::<u32>::begin(Task::Aura),
    };
    let slot_based = SlotBasedConsensus {
        params: SlotBasedParams {
            para_id: 1000,
            relay_chain_slot_duration_ms: 6000,
            authoring_duration_ms: 2000,
            reinitialize: false,
            slot_drift_ms: 1000,
        },
        telemetry: true,
        collation_task: CollatorTask::<u32>::begin(Task::Collation),
        block_builder_task: CollatorTask::<u32>::begin(Task::BlockBuilder),
    };
    assert_eq!(start_relay_chain_consensus(args), relay_chain);
    assert_eq!(start_lookahead_aura_consensus(args), lookahead);
    assert_eq!(start_slot_based_aura_consensus(args), slot_based);
    assert_eq!(ConsensusStarter::RelayChain.start::<u32>(args), ConsensusPlan::RelayChain(relay_chain));
    assert_eq!(
        ConsensusStarter::aura(false).start(args),
        ConsensusPlan::LookaheadAura(lookahead)
    );
    assert_eq!(
        ConsensusStarter::aura(true).start(args),
        ConsensusPlan::SlotBasedAura(slot_based)
    );
}

#[test]
fn task_names_and_groups() {
    let expected = [
        (Task::Telemetry, "telemetry", None, false),
        (Task::TelemetryHwbench, "telemetry_hwbench", None, false),
        (Task::Aura, "aura", None, true),
        (Task::Collation, "collation-task", Some("parachain-block-authoring"), true),
        (Task::BlockBuilder, "block-builder-task", Some("parachain-block-authoring"), true),
    ];
    for (task, name, group, essential) in expected {
        assert_eq!(task.name(), name);
        assert_eq!(task.group(), group);
        assert_eq!(task.is_essential(), essential);
    }
}
