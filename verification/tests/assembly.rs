use parachain_service::config::{
    heap_alloc_strategy, telemetry_endpoints, Configuration, ExecutorSettings, HeapAllocStrategy,
    Role, TelemetryEndpoint,
};
use parachain_service::import_queue::ImportQueue;
use parachain_service::partial::{new_partial, PartialAction, PartialComponents};
use parachain_service::step::Step;
use parachain_service::tasks::Task;

fn endpoint() -> TelemetryEndpoint {
    ("wss://telemetry.polkadot.io/submit/".to_string(), 1)
}

fn config(endpoints: Option<Vec<TelemetryEndpoint>>, role: Role) -> Configuration<u8> {
    Configuration {
        role,
        telemetry_endpoints: endpoints,
        wasm_method: 7,
        default_heap_pages: Some(64),
        max_runtime_instances: 8,
        runtime_cache_size: 2,
    }
}

/// Runs an assembly to its end, failing the action at the given place. Returns a short form of
/// each action and the result.
fn run(
    config: Configuration<u8>,
    fail_at: Option<usize>,
) -> (Vec<String>, Result<PartialComponents, &'static str>) {
    let (mut state, mut action) = new_partial(config, ImportQueue::RelayToAura);
    let mut trace = vec![format!("{:?}", action)];
    loop {
        let outcome = if fail_at == Some(trace.len() - 1) { Err("failed") } else { Ok(()) };
        match state.step(outcome) {
            Step::Continue(next, next_action) => {
                state = next;
                action = next_action;
                trace.push(format!("{:?}", action));
            }
            Step::Return(result) => return (trace, result),
        }
    }
}

fn executor(pages: u32) -> ExecutorSettings<u8> {
    ExecutorSettings {
        execution_method: 7,
        max_runtime_instances: 8,
        runtime_cache_size: 2,
        onchain_heap_alloc_strategy: HeapAllocStrategy::Static { extra_pages: pages },
        offchain_heap_alloc_strategy: HeapAllocStrategy::Static { extra_pages: pages },
    }
}

fn expected(telemetry: bool, validator: bool) -> Vec<String> {
    let mut actions: Vec<PartialAction<u8, ImportQueue>> = vec![];
    if telemetry {
        actions.push(PartialAction::StartTelemetry {
            buffer_size: 16,
            endpoints: vec![endpoint()],
        });
    }
    actions.push(PartialAction::BuildFullParts {
        executor: executor(64),
        telemetry,
        enable_import_proof_recording: true,
    });
    if telemetry {
        actions.push(PartialAction::SpawnTask { task: Task::Telemetry });
    }
    actions.push(PartialAction::CreateTransactionPool { is_validator: validator });
    actions.push(PartialAction::CreateBlockImport);
    actions.push(PartialAction::BuildImportQueue {
        import_queue: ImportQueue::RelayToAura,
        telemetry,
    });
    actions.iter().map(|action| format!("{:?}", action)).collect()
}

#[test]
fn assembly_with_telemetry() {
    let (trace, result) = run(config(Some(vec![endpoint()]), Role::Authority), None);
    assert_eq!(trace, expected(true, true));
    assert_eq!(result, Ok(PartialComponents { telemetry: true }));
}

#[test]
fn assembly_without_telemetry() {
    let (trace, result) = run(config(None, Role::Full), None);
    assert_eq!(trace, expected(false, false));
    assert_eq!(result, Ok(PartialComponents { telemetry: false }));
}

#[test]
fn empty_endpoints_mean_no_telemetry() {
    let (trace, result) = run(config(Some(vec![]), Role::Authority), None);
    assert_eq!(trace, expected(false, true));
    assert_eq!(result, Ok(PartialComponents { telemetry: false }));
    assert_eq!(telemetry_endpoints(Some(vec![])), None);
    assert_eq!(telemetry_endpoints(None), None);
    assert_eq!(telemetry_endpoints(Some(vec![endpoint()])), Some(vec![endpoint()]));
}

#[test]
fn every_failure_ends_the_assembly() {
    let whole = expected(true, true);
    for place in 0..whole.len() {
        let (trace, result) = run(config(Some(vec![endpoint()]), Role::Authority), Some(place));
        assert_eq!(trace[..], whole[..place + 1]);
        assert_eq!(result, Err("failed"));
    }
}

#[test]
fn the_import_queue_is_handed_on() {
    let (mut state, _) = new_partial(config(None, Role::Full), 'q');
    for _ in 0..2 {
        state = match state.step(Ok::<(), u8>(())) {
            Step::Continue(next, _) => next,
            Step::Return(_) => panic!("the assembly ended early"),
        };
    }
    match state.step(Ok::<(), u8>(())) {
        Step::Continue(_, action) => {
            assert!(matches!(
                action,
                PartialAction::BuildImportQueue { import_queue: 'q', telemetry: false }
            ));
        }
        Step::Return(_) => panic!("the assembly ended without an import queue"),
    }
}

#[test]
fn heap_pages() {
    let pages = |extra_pages| HeapAllocStrategy::Static { extra_pages };
    assert_eq!(heap_alloc_strategy(None), pages(2048));
    assert_eq!(heap_alloc_strategy(Some(0)), pages(0));
    assert_eq!(heap_alloc_strategy(Some(4096)), pages(4096));
    assert_eq!(heap_alloc_strategy(Some(u64::from(u32::MAX))), pages(u32::MAX));
    assert_eq!(heap_alloc_strategy(Some(0x1_0000_0005)), pages(5));
    assert_eq!(heap_alloc_strategy(Some(u64::MAX)), pages(u32::MAX));
}

#[test]
fn default_heap_pages_reach_the_executor() {
    let unset = Configuration { default_heap_pages: None, ..config(None, Role::Full) };
    assert_eq!(unset.executor_settings(), executor(2048));
    assert_eq!(config(None, Role::Full).executor_settings(), executor(64));
}

#[test]
fn only_authorities_author() {
    assert!(Role::Authority.is_authority());
    assert!(!Role::Full.is_authority());
}
