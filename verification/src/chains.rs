//! The chains that a node can be started for.

use crate::consensus::{CollatorSybilResistance, ConsensusStarter, ParaId};
use crate::import_queue::ImportQueue;
use crate::node::{
    start_node_impl, NodeAction, NodeEvent, NodeProgress, NodeSetup, NodeStart, RpcExtensions,
};
use crate::node_laws;
use vstd::prelude::*;

verus! {

/// The kinds of chains.
#[derive(Debug, Clone, Copy, PartialEq, Eq, Structural)]
pub enum Chain {
    /// Rococo parachains, which have always run Aura.
    RococoParachain,
    /// The shell, under relay chain consensus.
    Shell,
    /// Chains that run Aura now. Some system chains are of this kind.
    GenericAura,
    /// Asset Hub, which started as a shell and was upgraded to Aura.
    AssetHub,
    /// Aura chains whose runtime has no common contents such as transaction payment. Used for the
    /// Aura glutton.
    Basic,
    /// Rococo Contracts.
    ContractsRococo,
}

/// How the nodes of each kind of chain are set up. `slot_based` asks for the experimental
/// slot-based collator in place of the lookahead one on the chains that run Aura.
pub open spec fn setup_of(chain: Chain, para_id: ParaId, slot_based: bool) -> NodeSetup {
    NodeSetup {
        para_id,
        sybil_resistance_level: if chain is Shell {
            CollatorSybilResistance::Unresistant
        } else {
            CollatorSybilResistance::Resistant
        },
        rpc_extensions: match chain {
            Chain::RococoParachain | Chain::GenericAura | Chain::AssetHub => {
                RpcExtensions::Parachain
            },
            Chain::ContractsRococo => RpcExtensions::Contracts,
            Chain::Shell | Chain::Basic => RpcExtensions::Empty,
        },
        import_queue: match chain {
            Chain::RococoParachain | Chain::ContractsRococo => ImportQueue::Aura,
            Chain::GenericAura | Chain::AssetHub | Chain::Basic => ImportQueue::RelayToAura,
            Chain::Shell => ImportQueue::Shell,
        },
        consensus: if chain is Shell {
            ConsensusStarter::RelayChain
        } else if slot_based {
            ConsensusStarter::SlotBasedAura
        } else {
            ConsensusStarter::LookaheadAura
        },
    }
}

/// Starts a Rococo parachain node.
pub fn start_rococo_parachain_node(
    para_id: ParaId,
    use_experimental_slot_based: bool,
    hwbench: bool,
) -> (start: (NodeStart, NodeAction))
    ensures
        start.0@ == NodeProgress::begin(
            setup_of(Chain::RococoParachain, para_id, use_experimental_slot_based),
            hwbench,
        ),
        start.1 == NodeAction::PrepareNodeConfig,
{
    let consensus = ConsensusStarter::aura(use_experimental_slot_based);
    start_node_impl(
        NodeSetup {
            para_id,
            sybil_resistance_level: CollatorSybilResistance::Resistant,
            rpc_extensions: RpcExtensions::Parachain,
            import_queue: ImportQueue::Aura,
            consensus,
        },
        hwbench,
    )
}

/// Starts a shell node.
pub fn start_shell_node(para_id: ParaId, hwbench: bool) -> (start: (NodeStart, NodeAction))
    ensures
        start.0@ == NodeProgress::begin(setup_of(Chain::Shell, para_id, false), hwbench),
        start.1 == NodeAction::PrepareNodeConfig,
{
    start_node_impl(
        NodeSetup {
            para_id,
            // Consensus is free for all.
            sybil_resistance_level: CollatorSybilResistance::Unresistant,
            rpc_extensions: RpcExtensions::Empty,
            import_queue: ImportQueue::Shell,
            consensus: ConsensusStarter::RelayChain,
        },
        hwbench,
    )
}

/// Starts an Aura powered parachain node. Some system chains use this.
pub fn start_generic_aura_async_backing_node(
    para_id: ParaId,
    use_experimental_slot_based: bool,
    hwbench: bool,
) -> (start: (NodeStart, NodeAction))
    ensures
        start.0@ == NodeProgress::begin(
            setup_of(Chain::GenericAura, para_id, use_experimental_slot_based),
            hwbench,
        ),
        start.1 == NodeAction::PrepareNodeConfig,
{
    let consensus = ConsensusStarter::aura(use_experimental_slot_based);
    start_node_impl(
        NodeSetup {
            para_id,
            sybil_resistance_level: CollatorSybilResistance::Resistant,
            rpc_extensions: RpcExtensions::Parachain,
            import_queue: ImportQueue::RelayToAura,
            consensus,
        },
        hwbench,
    )
}

/// Starts a shell node which later becomes an Aura powered parachain node. Asset Hub uses this: at
/// genesis it was on the shell runtime, which did not have Aura, so a node needs to sync and
/// upgrade before it can use Aura's runtime API.
pub fn start_asset_hub_async_backing_node(
    para_id: ParaId,
    use_experimental_slot_based: bool,
    hwbench: bool,
) -> (start: (NodeStart, NodeAction))
    ensures
        start.0@ == NodeProgress::begin(
            setup_of(Chain::AssetHub, para_id, use_experimental_slot_based),
            hwbench,
        ),
        start.1 == NodeAction::PrepareNodeConfig,
{
    let consensus = ConsensusStarter::aura(use_experimental_slot_based);
    start_node_impl(
        NodeSetup {
            para_id,
            sybil_resistance_level: CollatorSybilResistance::Resistant,
            rpc_extensions: RpcExtensions::Parachain,
            import_queue: ImportQueue::RelayToAura,
            consensus,
        },
        hwbench,
    )
}

/// Starts an Aura powered parachain node that is basic in the sense that its runtime API does not
/// have common contents such as transaction payment. Used for the Aura glutton.
pub fn start_basic_async_backing_node(
    para_id: ParaId,
    use_experimental_slot_based: bool,
    hwbench: bool,
) -> (start: (NodeStart, NodeAction))
    ensures
        start.0@ == NodeProgress::begin(
            setup_of(Chain::Basic, para_id, use_experimental_slot_based),
            hwbench,
        ),
        start.1 == NodeAction::PrepareNodeConfig,
{
    let consensus = ConsensusStarter::aura(use_experimental_slot_based);
    start_node_impl(
        NodeSetup {
            para_id,
            sybil_resistance_level: CollatorSybilResistance::Resistant,
            rpc_extensions: RpcExtensions::Empty,
            import_queue: ImportQueue::RelayToAura,
            consensus,
        },
        hwbench,
    )
}

/// Starts a parachain node for Rococo Contracts.
pub fn start_contracts_rococo_node(
    para_id: ParaId,
    use_experimental_slot_based: bool,
    hwbench: bool,
) -> (start: (NodeStart, NodeAction))
    ensures
        start.0@ == NodeProgress::begin(
            setup_of(Chain::ContractsRococo, para_id, use_experimental_slot_based),
            hwbench,
        ),
        start.1 == NodeAction::PrepareNodeConfig,
{
    let consensus = ConsensusStarter::aura(use_experimental_slot_based);
    start_node_impl(
        NodeSetup {
            para_id,
            sybil_resistance_level: CollatorSybilResistance::Resistant,
            rpc_extensions: RpcExtensions::Contracts,
            import_queue: ImportQueue::Aura,
            consensus,
        },
        hwbench,
    )
}

/// The consensus of a chain resists Sybil attacks if and only if it is Aura, and only relay chain
/// consensus goes with an import queue that knows nothing of Aura.
pub proof fn lemma_resistant_iff_aura(chain: Chain, para_id: ParaId, slot_based: bool)
    ensures
        ({
            let setup = setup_of(chain, para_id, slot_based);
            &&& setup.sybil_resistance_level is Resistant <==> setup.consensus.is_aura()
            &&& setup.import_queue is Shell <==> setup.consensus is RelayChain
        }),
{
}

/// Asking for the experimental slot-based collator changes nothing but the collator, and nothing
/// at all on a shell.
pub proof fn lemma_flag_picks_collator_only(chain: Chain, para_id: ParaId)
    ensures
        ({
            let lookahead = setup_of(chain, para_id, false);
            let slot_based = setup_of(chain, para_id, true);
            &&& slot_based == (NodeSetup { consensus: slot_based.consensus, ..lookahead })
            &&& chain is Shell ==> slot_based == lookahead
            &&& !(chain is Shell) ==> lookahead.consensus is LookaheadAura
                && slot_based.consensus is SlotBasedAura
        }),
{
}

/// On a node that is no authority, asking for the experimental slot-based collator changes nothing
/// at all: whatever happens, the start-up asks for the same actions and comes to the same result.
pub proof fn lemma_flag_matters_to_authorities_only<E>(
    chain: Chain,
    para_id: ParaId,
    hwbench: bool,
    events: Seq<NodeEvent<E>>,
)
    requires
        node_laws::no_authority(events),
    ensures
        ({
            let lookahead = setup_of(chain, para_id, false);
            let slot_based = setup_of(chain, para_id, true);
            &&& node_laws::node_trace(slot_based, hwbench, events) == node_laws::node_trace(
                lookahead,
                hwbench,
                events,
            )
            &&& node_laws::node_result(slot_based, hwbench, events) == node_laws::node_result(
                lookahead,
                hwbench,
                events,
            )
        }),
{
    let lookahead = setup_of(chain, para_id, false);
    let slot_based = setup_of(chain, para_id, true);
    lemma_flag_picks_collator_only(chain, para_id);
    assert(slot_based == node_laws::with_consensus(lookahead, slot_based.consensus));
    node_laws::lemma_collator_matters_to_authorities_only(
        lookahead,
        slot_based.consensus,
        hwbench,
        events,
    );
}

/// Chains with the same import queue start alike but for their RPC extensions: whatever happens,
/// the start-up of the one asks for the actions of the other, with its own extensions, and comes to
/// the same result.
pub proof fn lemma_same_queue_starts_alike<E>(
    chain: Chain,
    other: Chain,
    para_id: ParaId,
    slot_based: bool,
    hwbench: bool,
    events: Seq<NodeEvent<E>>,
)
    requires
        setup_of(chain, para_id, slot_based).import_queue == setup_of(
            other,
            para_id,
            slot_based,
        ).import_queue,
    ensures
        ({
            let setup = setup_of(chain, para_id, slot_based);
            let alike = setup_of(other, para_id, slot_based);
            &&& node_laws::node_trace(alike, hwbench, events) == node_laws::actions_with_rpc(
                node_laws::node_trace(setup, hwbench, events),
                alike.rpc_extensions,
            )
            &&& node_laws::node_result(alike, hwbench, events) == node_laws::node_result(
                setup,
                hwbench,
                events,
            )
        }),
{
    let setup = setup_of(chain, para_id, slot_based);
    let rpc_extensions = setup_of(other, para_id, slot_based).rpc_extensions;
    assert(setup_of(other, para_id, slot_based) == node_laws::with_rpc(setup, rpc_extensions));
    node_laws::lemma_rpc_matters_to_server_only(setup, rpc_extensions, hwbench, events);
}

/// Asset Hub starts as the generic Aura chains do, whatever happens.
pub proof fn lemma_asset_hub_starts_as_generic_aura<E>(
    para_id: ParaId,
    slot_based: bool,
    hwbench: bool,
    events: Seq<NodeEvent<E>>,
)
    ensures
        ({
            let asset_hub = setup_of(Chain::AssetHub, para_id, slot_based);
            let generic = setup_of(Chain::GenericAura, para_id, slot_based);
            &&& node_laws::node_trace(asset_hub, hwbench, events) == node_laws::node_trace(
                generic,
                hwbench,
                events,
            )
            &&& node_laws::node_after(asset_hub, hwbench, events) == node_laws::node_after(
                generic,
                hwbench,
                events,
            )
        }),
{
    assert(setup_of(Chain::AssetHub, para_id, slot_based) == setup_of(
        Chain::GenericAura,
        para_id,
        slot_based,
    ));
}

/// Whatever is reported, a node builds its network for its own parachain, and as one in which
/// anyone may submit blocks if and only if its chain is the shell.
pub proof fn lemma_network_resists_unless_shell<E>(
    chain: Chain,
    para_id: ParaId,
    slot_based: bool,
    hwbench: bool,
    events: Seq<NodeEvent<E>>,
)
    ensures
        forall|i: int|
            #![trigger node_laws::node_trace(
                setup_of(chain, para_id, slot_based), hwbench, events,
            )[i]]
            0 <= i < node_laws::node_trace(
                setup_of(chain, para_id, slot_based),
                hwbench,
                events,
            ).len() ==> match node_laws::node_trace(
                setup_of(chain, para_id, slot_based),
                hwbench,
                events,
            )[i] {
                NodeAction::BuildNetwork { para_id: own, sybil_resistance_level } => {
                    &&& own == para_id
                    &&& sybil_resistance_level is Unresistant <==> chain is Shell
                },
                _ => true,
            },
{
    let setup = setup_of(chain, para_id, slot_based);
    crate::node_conduct::lemma_actions_carry_the_setup(setup, hwbench, events);
}

/// What sets the chains apart, whatever the parachain and the flag. Only the shell is open to
/// anyone, and only it runs relay chain consensus with an import queue to match. The Rococo chains
/// have always run Aura, the others switched to it. The contracts chain has RPC methods of its own;
/// the shell and the basic chains have none, and the rest those of transaction payment.
pub proof fn lemma_what_sets_chains_apart(chain: Chain, para_id: ParaId, slot_based: bool)
    ensures
        ({
            let setup = setup_of(chain, para_id, slot_based);
            &&& setup.para_id == para_id
            &&& setup.sybil_resistance_level is Unresistant <==> chain is Shell
            &&& setup.rpc_extensions is Contracts <==> chain is ContractsRococo
            &&& setup.rpc_extensions is Empty <==> chain is Shell || chain is Basic
            &&& setup.import_queue is Shell <==> chain is Shell
            &&& setup.import_queue is Aura <==> chain is RococoParachain || chain
                is ContractsRococo
            &&& setup.consensus is RelayChain <==> chain is Shell
            &&& setup.consensus is SlotBasedAura <==> !(chain is Shell) && slot_based
        }),
{
}

/// A Rococo parachain node is started for its parachain, under Aura from the first block, with the
/// collator that was asked for and RPC methods for transaction payment.
pub proof fn lemma_rococo_parachain_node_setup(
    para_id: ParaId,
    use_experimental_slot_based: bool,
    hwbench: bool,
    start: (NodeStart, NodeAction),
)
    requires
        call_ensures(
            start_rococo_parachain_node,
            (para_id, use_experimental_slot_based, hwbench),
            start,
        ),
    ensures
        start.0@.plan.setup.para_id == para_id,
        start.0@.plan.setup.sybil_resistance_level is Resistant,
        start.0@.plan.setup.rpc_extensions is Parachain,
        start.0@.plan.setup.import_queue is Aura,
        start.0@.plan.setup.consensus is SlotBasedAura <==> use_experimental_slot_based,
        start.0@.plan.setup.consensus is LookaheadAura <==> !use_experimental_slot_based,
        start.0@.plan.hwbench == hwbench,
        start.0@.done == 0,
        start.1 is PrepareNodeConfig,
{
}

/// A shell node is started for its parachain, under relay chain consensus that is open to anyone,
/// with no RPC methods of its own.
pub proof fn lemma_shell_node_setup(
    para_id: ParaId,
    hwbench: bool,
    start: (NodeStart, NodeAction),
)
    requires
        call_ensures(start_shell_node, (para_id, hwbench), start),
    ensures
        start.0@.plan.setup.para_id == para_id,
        start.0@.plan.setup.sybil_resistance_level is Unresistant,
        start.0@.plan.setup.rpc_extensions is Empty,
        start.0@.plan.setup.import_queue is Shell,
        start.0@.plan.setup.consensus is RelayChain,
        start.0@.plan.hwbench == hwbench,
        start.0@.done == 0,
        start.1 is PrepareNodeConfig,
{
}

/// A generic Aura node is started for its parachain, which may have switched to Aura, with the
/// collator that was asked for and RPC methods for transaction payment.
pub proof fn lemma_generic_aura_async_backing_node_setup(
    para_id: ParaId,
    use_experimental_slot_based: bool,
    hwbench: bool,
    start: (NodeStart, NodeAction),
)
    requires
        call_ensures(
            start_generic_aura_async_backing_node,
            (para_id, use_experimental_slot_based, hwbench),
            start,
        ),
    ensures
        start.0@.plan.setup.para_id == para_id,
        start.0@.plan.setup.sybil_resistance_level is Resistant,
        start.0@.plan.setup.rpc_extensions is Parachain,
        start.0@.plan.setup.import_queue is RelayToAura,
        start.0@.plan.setup.consensus is SlotBasedAura <==> use_experimental_slot_based,
        start.0@.plan.setup.consensus is LookaheadAura <==> !use_experimental_slot_based,
        start.0@.plan.hwbench == hwbench,
        start.0@.done == 0,
        start.1 is PrepareNodeConfig,
{
}

/// An Asset Hub node is started for its parachain, which switched to Aura, with the collator that
/// was asked for and RPC methods for transaction payment.
pub proof fn lemma_asset_hub_async_backing_node_setup(
    para_id: ParaId,
    use_experimental_slot_based: bool,
    hwbench: bool,
    start: (NodeStart, NodeAction),
)
    requires
        call_ensures(
            start_asset_hub_async_backing_node,
            (para_id, use_experimental_slot_based, hwbench),
            start,
        ),
    ensures
        start.0@.plan.setup.para_id == para_id,
        start.0@.plan.setup.sybil_resistance_level is Resistant,
        start.0@.plan.setup.rpc_extensions is Parachain,
        start.0@.plan.setup.import_queue is RelayToAura,
        start.0@.plan.setup.consensus is SlotBasedAura <==> use_experimental_slot_based,
        start.0@.plan.setup.consensus is LookaheadAura <==> !use_experimental_slot_based,
        start.0@.plan.hwbench == hwbench,
        start.0@.done == 0,
        start.1 is PrepareNodeConfig,
{
}

/// A basic node is started for its parachain, which may have switched to Aura, with the collator
/// that was asked for and no RPC methods of its own.
pub proof fn lemma_basic_async_backing_node_setup(
    para_id: ParaId,
    use_experimental_slot_based: bool,
    hwbench: bool,
    start: (NodeStart, NodeAction),
)
    requires
        call_ensures(
            start_basic_async_backing_node,
            (para_id, use_experimental_slot_based, hwbench),
            start,
        ),
    ensures
        start.0@.plan.setup.para_id == para_id,
        start.0@.plan.setup.sybil_resistance_level is Resistant,
        start.0@.plan.setup.rpc_extensions is Empty,
        start.0@.plan.setup.import_queue is RelayToAura,
        start.0@.plan.setup.consensus is SlotBasedAura <==> use_experimental_slot_based,
        start.0@.plan.setup.consensus is LookaheadAura <==> !use_experimental_slot_based,
        start.0@.plan.hwbench == hwbench,
        start.0@.done == 0,
        start.1 is PrepareNodeConfig,
{
}

/// A Rococo Contracts node is started for its parachain, under Aura from the first block, with the
/// collator that was asked for and RPC methods for contracts.
pub proof fn lemma_contracts_rococo_node_setup(
    para_id: ParaId,
    use_experimental_slot_based: bool,
    hwbench: bool,
    start: (NodeStart, NodeAction),
)
    requires
        call_ensures(
            start_contracts_rococo_node,
            (para_id, use_experimental_slot_based, hwbench),
            start,
        ),
    ensures
        start.0@.plan.setup.para_id == para_id,
        start.0@.plan.setup.sybil_resistance_level is Resistant,
        start.0@.plan.setup.rpc_extensions is Contracts,
        start.0@.plan.setup.import_queue is Aura,
        start.0@.plan.setup.consensus is SlotBasedAura <==> use_experimental_slot_based,
        start.0@.plan.setup.consensus is LookaheadAura <==> !use_experimental_slot_based,
        start.0@.plan.hwbench == hwbench,
        start.0@.done == 0,
        start.1 is PrepareNodeConfig,
{
}

} // verus!
