//! Start-up of a parachain node, from its configuration to its running network.
//!
//! The start-up is a procedure that decides which outside work comes next: it hands out one
//! [`NodeAction`] at a time and takes the [`NodeEvent`] that the action ended with.

use crate::config::Role;
use crate::consensus::{
    CollatorSybilResistance, ConsensusArgs, ConsensusStarter, DARecoveryProfile, ParaId,
    RELAY_CHAIN_SLOT_DURATION_MS,
};
use crate::import_queue::ImportQueue;
use crate::step::Step;
use crate::tasks::Task;
use vstd::prelude::*;

verus! {

/// The RPC methods that a node offers beyond those of every node.
#[derive(Debug, Clone, Copy, PartialEq, Eq, Structural)]
pub enum RpcExtensions {
    /// Those of a chain with transaction payment.
    Parachain,
    /// Those of the contracts chain.
    Contracts,
    /// None.
    Empty,
}

/// What sets the nodes of one chain apart from those of another.
#[derive(Debug, Clone, Copy, PartialEq, Eq, Structural)]
pub struct NodeSetup {
    pub para_id: ParaId,
    pub sybil_resistance_level: CollatorSybilResistance,
    pub rpc_extensions: RpcExtensions,
    pub import_queue: ImportQueue,
    pub consensus: ConsensusStarter,
}

/// Outside work that the start-up asks for.
#[derive(Debug, Clone, Copy, PartialEq, Eq, Structural)]
pub enum NodeAction {
    /// Adapt the configuration to a parachain node.
    PrepareNodeConfig,
    /// Assemble the partial components, with this import queue.
    NewPartial { import_queue: ImportQueue },
    /// Connect to the relay chain, handing on the telemetry worker and the hardware benchmark
    /// where there is one.
    BuildRelayChainInterface { telemetry: bool, hwbench: bool },
    /// Build the network.
    BuildNetwork { para_id: ParaId, sybil_resistance_level: CollatorSybilResistance },
    /// Spawn the tasks of every node, with an RPC server that has these extensions.
    SpawnTasks { rpc_extensions: RpcExtensions, telemetry: bool },
    /// Print the hardware benchmark.
    PrintHwbench,
    /// Warn if the hardware benchmark falls short of the reference hardware.
    WarnIfSlowHardware,
    /// Spawn a task.
    SpawnTask { task: Task },
    /// Ask the relay chain interface for its overseer.
    GetOverseerHandle,
    /// Start the tasks that follow the relay chain.
    StartRelayChainTasks {
        para_id: ParaId,
        da_recovery_profile: DARecoveryProfile,
        relay_chain_slot_duration_ms: u64,
    },
    /// Start to collate.
    StartConsensus { starter: ConsensusStarter, args: ConsensusArgs },
    /// Start the network.
    StartNetwork,
}

/// What an action ended with.
#[derive(Debug)]
pub enum NodeEvent<E> {
    /// The configuration is prepared, and says this of the node's role.
    ConfigPrepared { role: Role },
    /// The partial components are assembled, with or without telemetry.
    PartialBuilt(Result<bool, E>),
    /// The relay chain interface is there, with or without a collator key.
    RelayChainInterfaceBuilt(Result<bool, E>),
    /// Work that can fail and tells nothing more has ended.
    Completed(Result<(), E>),
    /// Work that cannot fail has ended.
    Performed,
}

/// The error that a start-up ends with.
#[derive(Debug)]
pub enum ServiceError<E> {
    /// An error of the relay chain interface, wrapped as an application error.
    Application(E),
    /// An error of the service itself.
    Service(E),
}

impl<E> NodeEvent<E> {
    /// The error that the event reports, if it reports one.
    pub open spec fn failure(self) -> Option<E> {
        match self {
            NodeEvent::PartialBuilt(Err(error)) => Some(error),
            NodeEvent::RelayChainInterfaceBuilt(Err(error)) => Some(error),
            NodeEvent::Completed(Err(error)) => Some(error),
            _ => None,
        }
    }
}

impl NodeAction {
    /// Whether an event is one that the action can end with.
    pub open spec fn answered_by<E>(self, event: NodeEvent<E>) -> bool {
        match self {
            NodeAction::PrepareNodeConfig => event is ConfigPrepared,
            NodeAction::NewPartial { .. } => event is PartialBuilt,
            NodeAction::BuildRelayChainInterface { .. } => event is RelayChainInterfaceBuilt,
            NodeAction::BuildNetwork { .. }
            | NodeAction::SpawnTasks { .. }
            | NodeAction::GetOverseerHandle
            | NodeAction::StartRelayChainTasks { .. }
            | NodeAction::StartConsensus { .. } => event is Completed,
            NodeAction::PrintHwbench
            | NodeAction::WarnIfSlowHardware
            | NodeAction::SpawnTask { .. }
            | NodeAction::StartNetwork => event is Performed,
        }
    }

    /// The error that the start-up ends with when the action fails: errors of the relay chain
    /// interface are application errors.
    pub open spec fn error_of<E>(self, error: E) -> ServiceError<E> {
        if self is BuildRelayChainInterface || self is GetOverseerHandle {
            ServiceError::Application(error)
        } else {
            ServiceError::Service(error)
        }
    }

    /// Whether an event is one that the action can end with.
    fn is_answered_by<E>(&self, event: &NodeEvent<E>) -> (answered: bool)
        ensures
            answered == self.answered_by(*event),
    {
        match self {
            NodeAction::PrepareNodeConfig => matches!(event, NodeEvent::ConfigPrepared { .. }),
            NodeAction::NewPartial { .. } => matches!(event, NodeEvent::PartialBuilt(_)),
            NodeAction::BuildRelayChainInterface { .. } => {
                matches!(event, NodeEvent::RelayChainInterfaceBuilt(_))
            },
            NodeAction::BuildNetwork { .. }
            | NodeAction::SpawnTasks { .. }
            | NodeAction::GetOverseerHandle
            | NodeAction::StartRelayChainTasks { .. }
            | NodeAction::StartConsensus { .. } => matches!(event, NodeEvent::Completed(_)),
            NodeAction::PrintHwbench
            | NodeAction::WarnIfSlowHardware
            | NodeAction::SpawnTask { .. }
            | NodeAction::StartNetwork => matches!(event, NodeEvent::Performed),
        }
    }

    /// The error that the start-up ends with when the action fails.
    fn error<E>(&self, error: E) -> (wrapped: ServiceError<E>)
        ensures
            wrapped == self.error_of(error),
    {
        match self {
            NodeAction::BuildRelayChainInterface { .. } | NodeAction::GetOverseerHandle => {
                ServiceError::Application(error)
            },
            _ => ServiceError::Service(error),
        }
    }
}

/// What decides which actions a start-up consists of: what was asked of it, and what it learns of
/// the node on its way.
#[derive(Debug, Clone, Copy, PartialEq, Eq, Structural)]
pub struct NodePlan {
    pub setup: NodeSetup,
    /// Whether a hardware benchmark was taken.
    pub hwbench: bool,
    /// Whether the node authors blocks.
    pub validator: bool,
    /// Whether the node reports telemetry.
    pub telemetry: bool,
}

/// The items of `actions` where `condition` holds, else nothing.
pub open spec fn only_if(condition: bool, actions: Seq<NodeAction>) -> Seq<NodeAction> {
    if condition {
        actions
    } else {
        seq![]
    }
}

impl NodePlan {
    /// The actions that assemble the node.
    pub open spec fn assembly(self) -> Seq<NodeAction> {
        seq![
            NodeAction::PrepareNodeConfig,
            NodeAction::NewPartial { import_queue: self.setup.import_queue },
            NodeAction::BuildRelayChainInterface {
                telemetry: self.telemetry,
                hwbench: self.hwbench,
            },
            NodeAction::BuildNetwork {
                para_id: self.setup.para_id,
                sybil_resistance_level: self.setup.sybil_resistance_level,
            },
            NodeAction::SpawnTasks {
                rpc_extensions: self.setup.rpc_extensions,
                telemetry: self.telemetry,
            },
        ]
    }

    /// The actions that report a hardware benchmark, where there is one.
    pub open spec fn hwbench_report(self) -> Seq<NodeAction> {
        only_if(self.hwbench, seq![NodeAction::PrintHwbench])
            + only_if(self.hwbench && self.validator, seq![NodeAction::WarnIfSlowHardware])
            + only_if(
            self.hwbench && self.telemetry,
            seq![NodeAction::SpawnTask { task: Task::TelemetryHwbench }],
        )
    }

    /// The actions that set the node to work. Validators collate.
    pub open spec fn launch(self) -> Seq<NodeAction> {
        seq![
            NodeAction::GetOverseerHandle,
            NodeAction::StartRelayChainTasks {
                para_id: self.setup.para_id,
                da_recovery_profile: if self.validator {
                    DARecoveryProfile::Collator
                } else {
                    DARecoveryProfile::FullNode
                },
                relay_chain_slot_duration_ms: RELAY_CHAIN_SLOT_DURATION_MS,
            },
        ] + only_if(
            self.validator,
            seq![
                NodeAction::StartConsensus {
                    starter: self.setup.consensus,
                    args: ConsensusArgs {
                        para_id: self.setup.para_id,
                        relay_chain_slot_duration_ms: RELAY_CHAIN_SLOT_DURATION_MS,
                        telemetry: self.telemetry,
                    },
                },
            ],
        ) + seq![NodeAction::StartNetwork]
    }

    /// The actions of the whole start-up, in order.
    pub open spec fn sequence(self) -> Seq<NodeAction> {
        self.assembly() + self.hwbench_report() + self.launch()
    }
}

/// How far a start-up has come: its plan as far as it is known, whether there is a key to sign
/// collations with, and how many of the plan's actions are done.
pub struct NodeProgress {
    pub plan: NodePlan,
    pub collator_key: bool,
    pub done: nat,
}

impl NodeProgress {
    /// A start-up that has done nothing and learned nothing yet.
    pub open spec fn begin(setup: NodeSetup, hwbench: bool) -> Self {
        NodeProgress {
            plan: NodePlan { setup, hwbench, validator: false, telemetry: false },
            collator_key: false,
            done: 0,
        }
    }

    /// Whether there is an action left to do.
    pub open spec fn is_running(self) -> bool {
        self.done < self.plan.sequence().len()
    }

    /// The action to do next.
    pub open spec fn pending(self) -> NodeAction
        recommends
            self.is_running(),
    {
        self.plan.sequence()[self.done as int]
    }

    /// What is known once an event has been seen.
    pub open spec fn learn<E>(self, event: NodeEvent<E>) -> Self {
        match event {
            NodeEvent::ConfigPrepared { role } => NodeProgress {
                plan: NodePlan { validator: role is Authority, ..self.plan },
                ..self
            },
            NodeEvent::PartialBuilt(Ok(telemetry)) => NodeProgress {
                plan: NodePlan { telemetry, ..self.plan },
                ..self
            },
            NodeEvent::RelayChainInterfaceBuilt(Ok(collator_key)) => NodeProgress {
                collator_key,
                ..self
            },
            _ => self,
        }
    }

    /// Whether the event would have a validator collate without a key to sign collations with.
    pub open spec fn lacks_collator_key<E>(self, event: NodeEvent<E>) -> bool {
        &&& self.pending() is StartRelayChainTasks
        &&& event matches NodeEvent::Completed(Ok(_))
        &&& self.plan.validator
        &&& !self.collator_key
    }

    /// What follows an event. One that does not answer the pending action changes nothing; one
    /// that reports a failure ends the start-up with that error; any other completes the pending
    /// action.
    pub open spec fn after<E>(self, event: NodeEvent<E>) -> Step<
        NodeProgress,
        NodeAction,
        Result<(), ServiceError<E>>,
    > {
        if !self.pending().answered_by(event) {
            Step::Continue(self, self.pending())
        } else {
            match event.failure() {
                Some(error) => Step::Return(Err(self.pending().error_of(error))),
                None => {
                    let next = NodeProgress { done: self.done + 1, ..self.learn(event) };
                    if next.is_running() {
                        Step::Continue(next, next.pending())
                    } else {
                        Step::Return(Ok(()))
                    }
                },
            }
        }
    }
}

/// The action that a start-up is waiting for.
#[derive(Debug, Clone, Copy, PartialEq, Eq, Structural)]
enum NodeStage {
    Config,
    Partial,
    RelayChainInterface,
    Network,
    Tasks,
    Hwbench,
    HardwareWarning,
    HwbenchTelemetry,
    Overseer,
    RelayChainTasks,
    Consensus,
    NetworkStart,
}

/// A start-up under way.
#[derive(Debug)]
pub struct NodeStart {
    plan: NodePlan,
    collator_key: bool,
    stage: NodeStage,
}

impl View for NodeStart {
    type V = NodeProgress;

    closed spec fn view(&self) -> NodeProgress {
        NodeProgress {
            plan: self.plan,
            collator_key: self.collator_key,
            done: position(self.plan, self.stage),
        }
    }
}

spec fn count(condition: bool) -> nat {
    if condition {
        1
    } else {
        0
    }
}

/// The number of a plan's actions that come before a stage.
spec fn position(plan: NodePlan, stage: NodeStage) -> nat {
    let report = count(plan.hwbench) + count(plan.hwbench && plan.validator) + count(
        plan.hwbench && plan.telemetry,
    );
    match stage {
        NodeStage::Config => 0,
        NodeStage::Partial => 1,
        NodeStage::RelayChainInterface => 2,
        NodeStage::Network => 3,
        NodeStage::Tasks => 4,
        NodeStage::Hwbench => 5,
        NodeStage::HardwareWarning => 6,
        NodeStage::HwbenchTelemetry => 6 + count(plan.validator),
        NodeStage::Overseer => 5 + report,
        NodeStage::RelayChainTasks => 6 + report,
        NodeStage::Consensus => 7 + report,
        NodeStage::NetworkStart => 7 + report + count(plan.validator),
    }
}

/// Whether a plan goes through a stage.
spec fn has_stage(plan: NodePlan, stage: NodeStage) -> bool {
    match stage {
        NodeStage::Hwbench => plan.hwbench,
        NodeStage::HardwareWarning => plan.hwbench && plan.validator,
        NodeStage::HwbenchTelemetry => plan.hwbench && plan.telemetry,
        NodeStage::Consensus => plan.validator,
        _ => true,
    }
}

impl NodeStart {
    /// A start-up stays among the stages of its plan, and collates with a key only.
    #[verifier::type_invariant]
    spec fn stage_is_due(self) -> bool {
        &&& has_stage(self.plan, self.stage)
        &&& self.stage == NodeStage::Consensus ==> self.collator_key
    }

    /// The action to do next.
    pub fn action(&self) -> (action: NodeAction)
        ensures
            self@.is_running(),
            action == self@.pending(),
    {
        proof {
            use_type_invariant(self);
        }
        action_of(&self.plan, self.stage)
    }

    /// Whether the event would have a validator collate without a key to sign collations with.
    pub fn lacks_collator_key<E>(&self, event: &NodeEvent<E>) -> (lacks: bool)
        ensures
            lacks == self@.lacks_collator_key(*event),
    {
        let action = self.action();
        match (action, event) {
            (NodeAction::StartRelayChainTasks { .. }, NodeEvent::Completed(Ok(()))) => {
                self.plan.validator && !self.collator_key
            },
            _ => false,
        }
    }

    /// What is known once an event has been seen that answers the pending action, or the error
    /// that it reports.
    fn learn<E>(self, event: NodeEvent<E>) -> (known: Result<NodeStart, E>)
        requires
            self@.pending().answered_by(event),
        ensures
            match known {
                Ok(state) => {
                    &&& event.failure() is None
                    &&& state@ == self@.learn(event)
                    &&& state.stage == self.stage
                },
                Err(error) => event.failure() == Some(error),
            },
    {
        proof {
            use_type_invariant(&self);
            lemma_stages_in_sequence(self.plan, self.stage);
        }
        match event {
            NodeEvent::ConfigPrepared { role } => {
                let validator = role.is_authority();
                Ok(NodeStart { plan: NodePlan { validator, ..self.plan }, ..self })
            },
            NodeEvent::PartialBuilt(Ok(telemetry)) => Ok(
                NodeStart { plan: NodePlan { telemetry, ..self.plan }, ..self },
            ),
            NodeEvent::RelayChainInterfaceBuilt(Ok(collator_key)) => Ok(
                NodeStart { collator_key, ..self },
            ),
            NodeEvent::PartialBuilt(Err(error)) => Err(error),
            NodeEvent::RelayChainInterfaceBuilt(Err(error)) => Err(error),
            NodeEvent::Completed(Err(error)) => Err(error),
            NodeEvent::Completed(Ok(())) | NodeEvent::Performed => Ok(self),
        }
    }

    /// Takes the event that the pending action ended with, and decides what follows. A validator
    /// has a collator key by the time it comes to collate.
    pub fn step<E>(self, event: NodeEvent<E>) -> (next: Step<
        NodeStart,
        NodeAction,
        Result<(), ServiceError<E>>,
    >)
        requires
            !self@.lacks_collator_key(event),
        ensures
            step_view(next) == self@.after(event),
    {
        let action = self.action();
        if !action.is_answered_by(&event) {
            return Step::Continue(self, action);
        }
        proof {
            use_type_invariant(&self);
            lemma_stages_in_sequence(self.plan, self.stage);
        }
        match self.learn(event) {
            Err(error) => Step::Return(Err(action.error(error))),
            Ok(known) => {
                proof {
                    use_type_invariant(&known);
                    lemma_stages_in_sequence(known.plan, known.stage);
                }
                match stage_after(&known.plan, known.stage) {
                    Some(stage) => {
                        let next = NodeStart { stage, ..known };
                        let action = next.action();
                        Step::Continue(next, action)
                    },
                    None => Step::Return(Ok(())),
                }
            },
        }
    }
}

/// The action of a stage.
spec fn stage_action(plan: NodePlan, stage: NodeStage) -> NodeAction {
    match stage {
        NodeStage::Config => plan.assembly()[0],
        NodeStage::Partial => plan.assembly()[1],
        NodeStage::RelayChainInterface => plan.assembly()[2],
        NodeStage::Network => plan.assembly()[3],
        NodeStage::Tasks => plan.assembly()[4],
        NodeStage::Hwbench => NodeAction::PrintHwbench,
        NodeStage::HardwareWarning => NodeAction::WarnIfSlowHardware,
        NodeStage::HwbenchTelemetry => NodeAction::SpawnTask { task: Task::TelemetryHwbench },
        NodeStage::Overseer => plan.launch()[0],
        NodeStage::RelayChainTasks => plan.launch()[1],
        NodeStage::Consensus => plan.launch()[2],
        NodeStage::NetworkStart => NodeAction::StartNetwork,
    }
}

/// Each stage of a plan stands for the action at its position, and the last one for the last.
proof fn lemma_stages_in_sequence(plan: NodePlan, stage: NodeStage)
    requires
        has_stage(plan, stage),
    ensures
        position(plan, stage) < plan.sequence().len(),
        plan.sequence()[position(plan, stage) as int] == stage_action(plan, stage),
        plan.sequence().len() == position(plan, NodeStage::NetworkStart) + 1,
{
}

/// The action at the position of a stage.
fn action_of(plan: &NodePlan, stage: NodeStage) -> (action: NodeAction)
    requires
        has_stage(*plan, stage),
    ensures
        position(*plan, stage) < plan.sequence().len(),
        action == plan.sequence()[position(*plan, stage) as int],
{
    proof {
        lemma_stages_in_sequence(*plan, stage);
    }
    match stage {
        NodeStage::Config => NodeAction::PrepareNodeConfig,
        NodeStage::Partial => NodeAction::NewPartial { import_queue: plan.setup.import_queue },
        NodeStage::RelayChainInterface => NodeAction::BuildRelayChainInterface {
            telemetry: plan.telemetry,
            hwbench: plan.hwbench,
        },
        NodeStage::Network => NodeAction::BuildNetwork {
            para_id: plan.setup.para_id,
            sybil_resistance_level: plan.setup.sybil_resistance_level,
        },
        NodeStage::Tasks => NodeAction::SpawnTasks {
            rpc_extensions: plan.setup.rpc_extensions,
            telemetry: plan.telemetry,
        },
        NodeStage::Hwbench => NodeAction::PrintHwbench,
        NodeStage::HardwareWarning => NodeAction::WarnIfSlowHardware,
        NodeStage::HwbenchTelemetry => NodeAction::SpawnTask { task: Task::TelemetryHwbench },
        NodeStage::Overseer => NodeAction::GetOverseerHandle,
        NodeStage::RelayChainTasks => NodeAction::StartRelayChainTasks {
            para_id: plan.setup.para_id,
            da_recovery_profile: if plan.validator {
                DARecoveryProfile::Collator
            } else {
                DARecoveryProfile::FullNode
            },
            relay_chain_slot_duration_ms: RELAY_CHAIN_SLOT_DURATION_MS,
        },
        NodeStage::Consensus => NodeAction::StartConsensus {
            starter: plan.setup.consensus,
            args: ConsensusArgs {
                para_id: plan.setup.para_id,
                relay_chain_slot_duration_ms: RELAY_CHAIN_SLOT_DURATION_MS,
                telemetry: plan.telemetry,
            },
        },
        NodeStage::NetworkStart => NodeAction::StartNetwork,
    }
}

/// The stage that follows a stage, if there is one.
fn stage_after(plan: &NodePlan, stage: NodeStage) -> (next: Option<NodeStage>)
    requires
        has_stage(*plan, stage),
    ensures
        match next {
            Some(following) => {
                &&& has_stage(*plan, following)
                &&& position(*plan, following) == position(*plan, stage) + 1
                &&& following == NodeStage::Consensus ==> stage == NodeStage::RelayChainTasks
            },
            None => stage == NodeStage::NetworkStart,
        },
{
    match stage {
        NodeStage::Config => Some(NodeStage::Partial),
        NodeStage::Partial => Some(NodeStage::RelayChainInterface),
        NodeStage::RelayChainInterface => Some(NodeStage::Network),
        NodeStage::Network => Some(NodeStage::Tasks),
        NodeStage::Tasks => if plan.hwbench {
            Some(NodeStage::Hwbench)
        } else {
            Some(NodeStage::Overseer)
        },
        NodeStage::Hwbench => if plan.validator {
            Some(NodeStage::HardwareWarning)
        } else if plan.telemetry {
            Some(NodeStage::HwbenchTelemetry)
        } else {
            Some(NodeStage::Overseer)
        },
        NodeStage::HardwareWarning => if plan.telemetry {
            Some(NodeStage::HwbenchTelemetry)
        } else {
            Some(NodeStage::Overseer)
        },
        NodeStage::HwbenchTelemetry => Some(NodeStage::Overseer),
        NodeStage::Overseer => Some(NodeStage::RelayChainTasks),
        NodeStage::RelayChainTasks => if plan.validator {
            Some(NodeStage::Consensus)
        } else {
            Some(NodeStage::NetworkStart)
        },
        NodeStage::Consensus => Some(NodeStage::NetworkStart),
        NodeStage::NetworkStart => None,
    }
}

/// A step of a start-up, with its state taken by its view.
pub open spec fn step_view<E>(
    step: Step<NodeStart, NodeAction, Result<(), ServiceError<E>>>,
) -> Step<NodeProgress, NodeAction, Result<(), ServiceError<E>>> {
    match step {
        Step::Continue(state, action) => Step::Continue(state@, action),
        Step::Return(result) => Step::Return(result),
    }
}

/// Begins to start a node. `hwbench` says whether a hardware benchmark was taken.
pub fn start_node_impl(setup: NodeSetup, hwbench: bool) -> (start: (NodeStart, NodeAction))
    ensures
        start.0@ == NodeProgress::begin(setup, hwbench),
        start.1 == start.0@.pending(),
        start.1 == NodeAction::PrepareNodeConfig,
{
    let plan = NodePlan { setup, hwbench, validator: false, telemetry: false };
    let state = NodeStart { plan, collator_key: false, stage: NodeStage::Config };
    let action = state.action();
    proof {
        lemma_stages_in_sequence(plan, NodeStage::Config);
    }
    (state, action)
}

} // verus!
