//! The parts of a node's configuration that decide how its service is put together.

use vstd::prelude::*;

verus! {

/// The role of a node in its network.
#[derive(Debug, Clone, Copy, PartialEq, Eq, Structural)]
pub enum Role {
    /// Follows the chain.
    Full,
    /// Follows the chain and authors blocks.
    Authority,
}

impl Role {
    /// Whether a node of this role authors blocks.
    pub fn is_authority(self) -> (authority: bool)
        ensures
            authority == (self is Authority),
    {
        match self {
            Role::Full => false,
            Role::Authority => true,
        }
    }
}

/// How the heap of a runtime instance is allocated.
#[derive(Debug, Clone, Copy, PartialEq, Eq, Structural)]
pub enum HeapAllocStrategy {
    /// A fixed number of pages on top of those that the runtime asks for.
    Static { extra_pages: u32 },
    /// The pages that the runtime asks for, growing up to the maximum where there is one.
    Dynamic { maximum_pages: Option<u32> },
}

/// The address of a telemetry server and the verbosity to report to it with.
pub type TelemetryEndpoint = (String, u8);

/// What the assembly of a service reads of the node's configuration. `M` is the way in which the
/// runtime is executed, which is only passed on.
#[derive(Debug)]
pub struct Configuration<M> {
    pub role: Role,
    pub telemetry_endpoints: Option<Vec<TelemetryEndpoint>>,
    pub wasm_method: M,
    pub default_heap_pages: Option<u64>,
    pub max_runtime_instances: usize,
    pub runtime_cache_size: u8,
}

/// The settings of the executor that runs the runtime.
#[derive(Debug, Clone, Copy, PartialEq, Eq)]
pub struct ExecutorSettings<M> {
    pub execution_method: M,
    pub max_runtime_instances: usize,
    pub runtime_cache_size: u8,
    pub onchain_heap_alloc_strategy: HeapAllocStrategy,
    pub offchain_heap_alloc_strategy: HeapAllocStrategy,
}

/// The strategy of a node on which none was configured.
///
/// Reads the constant `sc_executor_common::wasm_runtime::DEFAULT_HEAP_ALLOC_STRATEGY`, which is
/// a static allocation of 2048 extra pages.
#[verifier::external_body]
fn default_heap_alloc_strategy() -> (strategy: HeapAllocStrategy)
    ensures
        strategy == (HeapAllocStrategy::Static { extra_pages: 2048 }),
{
    match sc_executor_common::wasm_runtime::DEFAULT_HEAP_ALLOC_STRATEGY {
        sc_executor_common::wasm_runtime::HeapAllocStrategy::Static { extra_pages } =>
            HeapAllocStrategy::Static { extra_pages },
        sc_executor_common::wasm_runtime::HeapAllocStrategy::Dynamic { maximum_pages } =>
            HeapAllocStrategy::Dynamic { maximum_pages },
    }
}

/// The number of extra pages for each configured number of heap pages: its lower 32 bits.
pub open spec fn extra_pages_of(heap_pages: u64) -> int {
    heap_pages as int % 0x1_0000_0000
}

/// The heap allocation strategy for the configured number of heap pages.
pub open spec fn heap_alloc_strategy_of(default_heap_pages: Option<u64>) -> HeapAllocStrategy {
    match default_heap_pages {
        Some(pages) => HeapAllocStrategy::Static { extra_pages: extra_pages_of(pages) as u32 },
        None => HeapAllocStrategy::Static { extra_pages: 2048 },
    }
}

/// The heap allocation strategy of a node: a static one with the configured pages, cut to 32
/// bits, or the executor's default.
pub fn heap_alloc_strategy(default_heap_pages: Option<u64>) -> (strategy: HeapAllocStrategy)
    ensures
        strategy == heap_alloc_strategy_of(default_heap_pages),
{
    match default_heap_pages {
        Some(pages) => {
            let extra_pages: u32 = #[verifier::truncate] (pages as u32);
            assert(pages as u32 == pages % 0x1_0000_0000) by (bit_vector);
            HeapAllocStrategy::Static { extra_pages }
        },
        None => default_heap_alloc_strategy(),
    }
}

/// The executor settings that a configuration asks for.
pub open spec fn executor_settings_of<M>(config: Configuration<M>) -> ExecutorSettings<M> {
    ExecutorSettings {
        execution_method: config.wasm_method,
        max_runtime_instances: config.max_runtime_instances,
        runtime_cache_size: config.runtime_cache_size,
        onchain_heap_alloc_strategy: heap_alloc_strategy_of(config.default_heap_pages),
        offchain_heap_alloc_strategy: heap_alloc_strategy_of(config.default_heap_pages),
    }
}

impl<M: Copy> Configuration<M> {
    /// The settings of the executor. Calls on chain and off chain share one heap strategy.
    pub fn executor_settings(&self) -> (settings: ExecutorSettings<M>)
        ensures
            settings == executor_settings_of(*self),
    {
        let strategy = heap_alloc_strategy(self.default_heap_pages);
        ExecutorSettings {
            execution_method: self.wasm_method,
            max_runtime_instances: self.max_runtime_instances,
            runtime_cache_size: self.runtime_cache_size,
            onchain_heap_alloc_strategy: strategy,
            offchain_heap_alloc_strategy: strategy,
        }
    }
}

/// Whether telemetry has anyone to report to.
pub open spec fn wants_telemetry(endpoints: Option<Vec<TelemetryEndpoint>>) -> bool {
    endpoints matches Some(list) && list@.len() > 0
}

/// The endpoints to report to: the configured ones, unless the list is empty.
pub fn telemetry_endpoints(configured: Option<Vec<TelemetryEndpoint>>) -> (endpoints: Option<
    Vec<TelemetryEndpoint>,
>)
    ensures
        endpoints == (if wants_telemetry(configured) {
            configured
        } else {
            None
        }),
{
    match configured {
        Some(list) => if list.len() > 0 {
            Some(list)
        } else {
            None
        },
        None => None,
    }
}

/// A number of heap pages that fits in 32 bits is taken over as it is.
pub proof fn lemma_heap_pages_kept(pages: u64)
    requires
        pages <= u32::MAX,
    ensures
        heap_alloc_strategy_of(Some(pages)) == (HeapAllocStrategy::Static {
            extra_pages: pages as u32,
        }),
{
}

/// Heap pages are configured as a static number of extra pages that agrees with the configured one
/// in its lower 32 bits; where nothing is configured there are 2048.
pub proof fn lemma_heap_pages_agree(default_heap_pages: Option<u64>, strategy: HeapAllocStrategy)
    requires
        call_ensures(heap_alloc_strategy, (default_heap_pages,), strategy),
    ensures
        strategy matches HeapAllocStrategy::Static { extra_pages } && match default_heap_pages {
            Some(pages) => extra_pages <= pages && (pages - extra_pages) % 0x1_0000_0000 == 0,
            None => extra_pages == 2048,
        },
{
}

/// The executor runs as it was configured to, with one heap strategy on and off the chain.
pub proof fn lemma_executor_as_configured<M: Copy>(
    config: Configuration<M>,
    settings: ExecutorSettings<M>,
)
    requires
        call_ensures(Configuration::<M>::executor_settings, (&config,), settings),
    ensures
        settings.execution_method == config.wasm_method,
        settings.max_runtime_instances == config.max_runtime_instances,
        settings.runtime_cache_size == config.runtime_cache_size,
        settings.onchain_heap_alloc_strategy == settings.offchain_heap_alloc_strategy,
        settings.onchain_heap_alloc_strategy matches HeapAllocStrategy::Static { extra_pages }
            && match config.default_heap_pages {
            Some(pages) => extra_pages <= pages && (pages - extra_pages) % 0x1_0000_0000 == 0,
            None => extra_pages == 2048,
        },
{
}

/// Telemetry goes to all configured endpoints, in their order; with none configured there is none.
pub proof fn lemma_reports_to_configured_endpoints(
    configured: Option<Vec<TelemetryEndpoint>>,
    endpoints: Option<Vec<TelemetryEndpoint>>,
)
    requires
        call_ensures(telemetry_endpoints, (configured,), endpoints),
    ensures
        match endpoints {
            Some(list) => configured == Some(list) && list@.len() > 0,
            None => configured matches Some(list) ==> list@.len() == 0,
        },
{
}

/// An authority is told from a full node.
pub proof fn lemma_authorities_author(role: Role, authority: bool)
    requires
        call_ensures(Role::is_authority, (role,), authority),
    ensures
        authority <==> role == Role::Authority,
        !authority <==> role == Role::Full,
{
}

} // verus!
