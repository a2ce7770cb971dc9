//! The collators of a parachain node and what each is started with.

use crate::aura::{self, CollatorTask, WaitAction, WaitEvent, WaitForAura};
use crate::step::Step;
use crate::tasks::Task;
use vstd::prelude::*;

verus! {

/// The identifier of a parachain on its relay chain.
pub type ParaId = u32;

/// The length of a relay chain slot, in milliseconds.
pub const RELAY_CHAIN_SLOT_DURATION_MS: u64 = 6000;

/// The ways in which a node can take part in the consensus of its chain.
#[derive(Debug, Clone, Copy, PartialEq, Eq, Structural)]
pub enum ConsensusStarter {
    /// Free for all: everyone can submit a block, the relay chain decides what is included.
    RelayChain,
    /// Aura, with the lookahead collator.
    LookaheadAura,
    /// Aura, with the experimental slot-based collator.
    SlotBasedAura,
}

/// Whether the consensus of a chain limits who may submit blocks.
#[derive(Debug, Clone, Copy, PartialEq, Eq, Structural)]
pub enum CollatorSybilResistance {
    Resistant,
    Unresistant,
}

/// How hard a node tries to recover blocks that were withheld from it.
#[derive(Debug, Clone, Copy, PartialEq, Eq, Structural)]
pub enum DARecoveryProfile {
    Collator,
    FullNode,
}

/// What a node hands to the collator that it starts.
#[derive(Debug, Clone, Copy, PartialEq, Eq, Structural)]
pub struct ConsensusArgs {
    pub para_id: ParaId,
    pub relay_chain_slot_duration_ms: u64,
    /// Whether block proposals are reported over telemetry.
    pub telemetry: bool,
}

/// Relay chain consensus, as it is started.
#[derive(Debug, Clone, Copy, PartialEq, Eq, Structural)]
pub struct RelayChainConsensus {
    pub para_id: ParaId,
    pub telemetry: bool,
}

/// The parameters of the lookahead collator. Durations are in milliseconds.
#[derive(Debug, Clone, Copy, PartialEq, Eq, Structural)]
pub struct AuraParams {
    pub para_id: ParaId,
    pub relay_chain_slot_duration_ms: u64,
    /// The time that the authoring of a block may take.
    pub authoring_duration_ms: u64,
    /// Whether the collation of the node, set up before in another way, is to be set up anew.
    pub reinitialize: bool,
}

/// The lookahead collator, as it is started.
#[derive(Debug, Clone, Copy, PartialEq, Eq)]
pub struct LookaheadConsensus<H> {
    pub params: AuraParams,
    pub telemetry: bool,
    pub task: CollatorTask<H>,
}

/// The parameters of the slot-based collator. Durations are in milliseconds.
#[derive(Debug, Clone, Copy, PartialEq, Eq, Structural)]
pub struct SlotBasedParams {
    pub para_id: ParaId,
    pub relay_chain_slot_duration_ms: u64,
    /// The time that the authoring of a block may take.
    pub authoring_duration_ms: u64,
    /// Whether the collation of the node, set up before in another way, is to be set up anew.
    pub reinitialize: bool,
    /// How far slots are shifted against the clock.
    pub slot_drift_ms: u64,
}

/// The slot-based collator, as it is started.
#[derive(Debug, Clone, Copy, PartialEq, Eq)]
pub struct SlotBasedConsensus<H> {
    pub params: SlotBasedParams,
    pub telemetry: bool,
    pub collation_task: CollatorTask<H>,
    pub block_builder_task: CollatorTask<H>,
}

/// A consensus, as it is started. `H` is the type of the block hashes that its tasks deal with.
#[derive(Debug, Clone, Copy, PartialEq, Eq)]
pub enum ConsensusPlan<H> {
    RelayChain(RelayChainConsensus),
    LookaheadAura(LookaheadConsensus<H>),
    SlotBasedAura(SlotBasedConsensus<H>),
}

/// Relay chain consensus with these arguments.
pub open spec fn relay_chain_consensus(args: ConsensusArgs) -> RelayChainConsensus {
    RelayChainConsensus { para_id: args.para_id, telemetry: args.telemetry }
}

/// The lookahead collator with these arguments. It may author for one and a half seconds, once
/// Aura is there.
pub open spec fn lookahead_consensus<H>(args: ConsensusArgs) -> LookaheadConsensus<H> {
    LookaheadConsensus {
        params: AuraParams {
            para_id: args.para_id,
            relay_chain_slot_duration_ms: args.relay_chain_slot_duration_ms,
            authoring_duration_ms: 1500,
            reinitialize: false,
        },
        telemetry: args.telemetry,
        task: CollatorTask::fresh(Task::Aura),
    }
}

/// The slot-based collator with these arguments. It may author for two seconds, in slots that are
/// one second off the clock, once Aura is there.
pub open spec fn slot_based_consensus<H>(args: ConsensusArgs) -> SlotBasedConsensus<H> {
    SlotBasedConsensus {
        params: SlotBasedParams {
            para_id: args.para_id,
            relay_chain_slot_duration_ms: args.relay_chain_slot_duration_ms,
            authoring_duration_ms: 2000,
            reinitialize: false,
            slot_drift_ms: 1000,
        },
        telemetry: args.telemetry,
        collation_task: CollatorTask::fresh(Task::Collation),
        block_builder_task: CollatorTask::fresh(Task::BlockBuilder),
    }
}

/// Starts relay chain consensus that is free for all. Everyone can submit a block, the relay
/// chain decides what is backed and included.
pub fn start_relay_chain_consensus(args: ConsensusArgs) -> (consensus: RelayChainConsensus)
    ensures
        consensus == relay_chain_consensus(args),
        consensus.para_id == args.para_id,
        consensus.telemetry == args.telemetry,
{
    RelayChainConsensus { para_id: args.para_id, telemetry: args.telemetry }
}

/// Starts consensus with the lookahead Aura collator, in one task that waits for Aura first.
pub fn start_lookahead_aura_consensus<H: Copy>(args: ConsensusArgs) -> (consensus:
    LookaheadConsensus<H>)
    ensures
        consensus == lookahead_consensus::<H>(args),
        consensus.params.para_id == args.para_id,
        consensus.params.relay_chain_slot_duration_ms == args.relay_chain_slot_duration_ms,
        consensus.telemetry == args.telemetry,
{
    LookaheadConsensus {
        params: AuraParams {
            para_id: args.para_id,
            relay_chain_slot_duration_ms: args.relay_chain_slot_duration_ms,
            authoring_duration_ms: 1500,
            reinitialize: false,
        },
        telemetry: args.telemetry,
        task: CollatorTask::begin(Task::Aura),
    }
}

/// Starts consensus with the slot-based Aura collator, in a task that builds blocks and one that
/// submits them, which both wait for Aura first.
pub fn start_slot_based_aura_consensus<H: Copy>(args: ConsensusArgs) -> (consensus:
    SlotBasedConsensus<H>)
    ensures
        consensus == slot_based_consensus::<H>(args),
        consensus.params.para_id == args.para_id,
        consensus.params.relay_chain_slot_duration_ms == args.relay_chain_slot_duration_ms,
        consensus.telemetry == args.telemetry,
{
    SlotBasedConsensus {
        params: SlotBasedParams {
            para_id: args.para_id,
            relay_chain_slot_duration_ms: args.relay_chain_slot_duration_ms,
            authoring_duration_ms: 2000,
            reinitialize: false,
            slot_drift_ms: 1000,
        },
        telemetry: args.telemetry,
        collation_task: CollatorTask::begin(Task::Collation),
        block_builder_task: CollatorTask::begin(Task::BlockBuilder),
    }
}

impl<H> ConsensusPlan<H> {
    /// The tasks that the consensus is spawned in.
    pub open spec fn tasks(self) -> Set<CollatorTask<H>> {
        match self {
            ConsensusPlan::RelayChain(_) => set![],
            ConsensusPlan::LookaheadAura(consensus) => set![consensus.task],
            ConsensusPlan::SlotBasedAura(consensus) => set![
                consensus.collation_task,
                consensus.block_builder_task,
            ],
        }
    }
}

/// The consensus that a way to take part comes to with these arguments.
pub open spec fn consensus_plan<H>(starter: ConsensusStarter, args: ConsensusArgs) -> ConsensusPlan<
    H,
> {
    match starter {
        ConsensusStarter::RelayChain => ConsensusPlan::RelayChain(relay_chain_consensus(args)),
        ConsensusStarter::LookaheadAura => ConsensusPlan::LookaheadAura(lookahead_consensus(args)),
        ConsensusStarter::SlotBasedAura => ConsensusPlan::SlotBasedAura(slot_based_consensus(args)),
    }
}

impl ConsensusStarter {
    /// Whether this is a way to run Aura.
    pub open spec fn is_aura(self) -> bool {
        self is LookaheadAura || self is SlotBasedAura
    }

    /// The Aura collator of a node: the lookahead one, unless the experimental slot-based one is
    /// asked for.
    pub fn aura(use_experimental_slot_based: bool) -> (starter: ConsensusStarter)
        ensures
            starter == (if use_experimental_slot_based {
                ConsensusStarter::SlotBasedAura
            } else {
                ConsensusStarter::LookaheadAura
            }),
    {
        if use_experimental_slot_based {
            ConsensusStarter::SlotBasedAura
        } else {
            ConsensusStarter::LookaheadAura
        }
    }

    /// Starts consensus in this way.
    pub fn start<H: Copy>(self, args: ConsensusArgs) -> (plan: ConsensusPlan<H>)
        ensures
            plan == consensus_plan::<H>(self, args),
    {
        match self {
            ConsensusStarter::RelayChain => ConsensusPlan::RelayChain(
                start_relay_chain_consensus(args),
            ),
            ConsensusStarter::LookaheadAura => ConsensusPlan::LookaheadAura(
                start_lookahead_aura_consensus(args),
            ),
            ConsensusStarter::SlotBasedAura => ConsensusPlan::SlotBasedAura(
                start_slot_based_aura_consensus(args),
            ),
        }
    }
}

/// A node goes down with every task of its collator, and the Aura collators alone have tasks.
pub proof fn lemma_collator_tasks_are_essential<H>(starter: ConsensusStarter, args: ConsensusArgs)
    ensures
        forall|task: CollatorTask<H>| #[trigger]
            consensus_plan::<H>(starter, args).tasks().contains(task) ==> task.task.essential(),
        starter.is_aura() <==> exists|task: CollatorTask<H>| #[trigger]
            consensus_plan::<H>(starter, args).tasks().contains(task),
{
    let tasks = consensus_plan::<H>(starter, args).tasks();
    assert(starter is LookaheadAura ==> tasks.contains(CollatorTask::fresh(Task::Aura)));
    assert(starter is SlotBasedAura ==> tasks.contains(CollatorTask::fresh(Task::Collation)));
}

/// Collators depend on Aura: every task of every collator starts with the wait for Aura, and does
/// its work if and only if that wait has returned that Aura is there, which takes a query that
/// found it.
pub proof fn lemma_collators_wait_for_aura<H, E>(
    starter: ConsensusStarter,
    args: ConsensusArgs,
    task: CollatorTask<H>,
    events: Seq<WaitEvent<H, E>>,
)
    requires
        consensus_plan::<H>(starter, args).tasks().contains(task),
    ensures
        task == CollatorTask::<H>::fresh(task.task),
        ({
            let collator = aura::collator_after(task.task, aura::as_waited(events));
            let works = collator matches Step::Continue(_, action) && action is Run;
            &&& works <==> aura::wait_after(events) == Step::<
                WaitForAura<H>,
                WaitAction<H>,
                bool,
            >::Return(true)
            &&& works ==> exists|i: int|
                0 <= i < events.len() && (#[trigger] events[i]).finds_aura()
        }),
{
    let found = Step::<WaitForAura<H>, WaitAction<H>, bool>::Return(true);
    aura::lemma_collates_after_wait(task.task, events);
    if aura::wait_after(events) == found {
        aura::lemma_aura_has_appeared(events);
    }
}

/// What a collator of relay chain consensus is started with is what it works with: its parachain,
/// and whether it reports its proposals.
pub proof fn lemma_relay_chain_consensus_keeps_args(
    args: ConsensusArgs,
    consensus: RelayChainConsensus,
)
    requires
        call_ensures(start_relay_chain_consensus, (args,), consensus),
    ensures
        consensus.para_id == args.para_id,
        consensus.telemetry == args.telemetry,
{
}

/// The lookahead collator collates for the parachain that it was started for, at the pace of its
/// relay chain, and reports its proposals where it was told to. It never takes over the collation
/// of another, may author for a second and a half, and runs as the task for Aura.
pub proof fn lemma_lookahead_keeps_args<H: Copy>(
    args: ConsensusArgs,
    consensus: LookaheadConsensus<H>,
)
    requires
        call_ensures(start_lookahead_aura_consensus::<H>, (args,), consensus),
    ensures
        consensus.params.para_id == args.para_id,
        consensus.params.relay_chain_slot_duration_ms == args.relay_chain_slot_duration_ms,
        consensus.params.authoring_duration_ms == 1500,
        !consensus.params.reinitialize,
        consensus.telemetry == args.telemetry,
        consensus.task.task is Aura,
{
}

/// The slot-based collator collates for the parachain that it was started for, at the pace of its
/// relay chain, and reports its proposals where it was told to. It never takes over the collation
/// of another, and may author for two seconds in slots that are one second off the clock. It runs
/// as two tasks, one that builds blocks and one that submits them.
pub proof fn lemma_slot_based_keeps_args<H: Copy>(
    args: ConsensusArgs,
    consensus: SlotBasedConsensus<H>,
)
    requires
        call_ensures(start_slot_based_aura_consensus::<H>, (args,), consensus),
    ensures
        consensus.params.para_id == args.para_id,
        consensus.params.relay_chain_slot_duration_ms == args.relay_chain_slot_duration_ms,
        consensus.params.authoring_duration_ms == 2000,
        consensus.params.slot_drift_ms == 1000,
        !consensus.params.reinitialize,
        consensus.telemetry == args.telemetry,
        consensus.collation_task.task is Collation,
        consensus.block_builder_task.task is BlockBuilder,
{
}

/// A node takes part in consensus in the way that was picked and in no other, for its own parachain
/// and with its own arguments, whichever way that is.
pub proof fn lemma_every_start_keeps_args<H: Copy>(
    starter: ConsensusStarter,
    args: ConsensusArgs,
    plan: ConsensusPlan<H>,
)
    requires
        call_ensures(ConsensusStarter::start::<H>, (starter, args), plan),
    ensures
        match plan {
            ConsensusPlan::RelayChain(consensus) => {
                &&& starter is RelayChain
                &&& consensus.para_id == args.para_id
                &&& consensus.telemetry == args.telemetry
            },
            ConsensusPlan::LookaheadAura(consensus) => {
                &&& starter is LookaheadAura
                &&& consensus.params.para_id == args.para_id
                &&& consensus.params.relay_chain_slot_duration_ms
                    == args.relay_chain_slot_duration_ms
                &&& consensus.telemetry == args.telemetry
                &&& consensus.params.authoring_duration_ms == 1500
                &&& !consensus.params.reinitialize
                &&& consensus.task.task is Aura
            },
            ConsensusPlan::SlotBasedAura(consensus) => {
                &&& starter is SlotBasedAura
                &&& consensus.params.para_id == args.para_id
                &&& consensus.params.relay_chain_slot_duration_ms
                    == args.relay_chain_slot_duration_ms
                &&& consensus.telemetry == args.telemetry
                &&& consensus.params.authoring_duration_ms == 2000
                &&& consensus.params.slot_drift_ms == 1000
                &&& !consensus.params.reinitialize
                &&& consensus.collation_task.task is Collation
                &&& consensus.block_builder_task.task is BlockBuilder
            },
        },
{
}

/// The plan of every way to take part carries on the parachain, the pace of the relay chain and the
/// telemetry that it is given.
pub proof fn lemma_plan_keeps_args<H>(starter: ConsensusStarter, args: ConsensusArgs)
    ensures
        match consensus_plan::<H>(starter, args) {
            ConsensusPlan::RelayChain(consensus) => {
                &&& starter is RelayChain
                &&& consensus.para_id == args.para_id
                &&& consensus.telemetry == args.telemetry
            },
            ConsensusPlan::LookaheadAura(consensus) => {
                &&& starter is LookaheadAura
                &&& consensus.params.para_id == args.para_id
                &&& consensus.params.relay_chain_slot_duration_ms
                    == args.relay_chain_slot_duration_ms
                &&& consensus.telemetry == args.telemetry
            },
            ConsensusPlan::SlotBasedAura(consensus) => {
                &&& starter is SlotBasedAura
                &&& consensus.params.para_id == args.para_id
                &&& consensus.params.relay_chain_slot_duration_ms
                    == args.relay_chain_slot_duration_ms
                &&& consensus.telemetry == args.telemetry
            },
        },
{
}

/// Collators that are started for different parachains, at a different pace or with another answer
/// to whether they report, differ; nothing else tells two of one kind apart.
pub proof fn lemma_args_tell_collators_apart<H: Copy>(
    starter: ConsensusStarter,
    first_args: ConsensusArgs,
    second_args: ConsensusArgs,
    first: ConsensusPlan<H>,
    second: ConsensusPlan<H>,
)
    requires
        call_ensures(ConsensusStarter::start::<H>, (starter, first_args), first),
        call_ensures(ConsensusStarter::start::<H>, (starter, second_args), second),
    ensures
        first == second <==> first_args.para_id == second_args.para_id && first_args.telemetry
            == second_args.telemetry && (starter is RelayChain
            || first_args.relay_chain_slot_duration_ms
            == second_args.relay_chain_slot_duration_ms),
{
}

/// The experimental collator is started if and only if it is asked for; either way it is Aura.
pub proof fn lemma_flag_picks_aura_collator(
    use_experimental_slot_based: bool,
    starter: ConsensusStarter,
)
    requires
        call_ensures(ConsensusStarter::aura, (use_experimental_slot_based,), starter),
    ensures
        starter is SlotBasedAura <==> use_experimental_slot_based,
        starter is LookaheadAura <==> !use_experimental_slot_based,
{
}

} // verus!
