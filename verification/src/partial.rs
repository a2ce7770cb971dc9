//! Assembly of the partial components of a node: enough of it to run operations on the chain.
//!
//! Like the start-up of a whole node, the assembly hands out one [`PartialAction`] at a time and
//! takes the outcome of the action. `M` is the way in which the runtime is executed and `Q` what
//! the import queue is to be built from; both are only passed on.

use crate::config::{telemetry_endpoints, Configuration, ExecutorSettings, TelemetryEndpoint};
use crate::step::Step;
use crate::tasks::Task;
use vstd::prelude::*;

verus! {

/// The number of telemetry messages that may wait to be sent.
pub const TELEMETRY_BUFFER_SIZE: usize = 16;

/// Outside work that the assembly asks for.
#[derive(Debug)]
pub enum PartialAction<M, Q> {
    /// Create a telemetry worker with a buffer of this size, and a telemetry that reports to
    /// these endpoints through it.
    StartTelemetry { buffer_size: usize, endpoints: Vec<TelemetryEndpoint> },
    /// Build the client, the backend, the keystore and the task manager.
    BuildFullParts {
        executor: ExecutorSettings<M>,
        telemetry: bool,
        enable_import_proof_recording: bool,
    },
    /// Spawn a task.
    SpawnTask { task: Task },
    /// Create the transaction pool.
    CreateTransactionPool { is_validator: bool },
    /// Create the block import.
    CreateBlockImport,
    /// Build the import queue.
    BuildImportQueue { import_queue: Q, telemetry: bool },
}

/// What the rest of a node needs to know of its partial components.
#[derive(Debug, Clone, Copy, PartialEq, Eq, Structural)]
pub struct PartialComponents {
    /// Whether there is a telemetry and a handle to its worker.
    pub telemetry: bool,
}

/// What decides which actions an assembly consists of.
#[derive(Debug)]
pub struct PartialPlan<M, Q> {
    pub executor: ExecutorSettings<M>,
    pub telemetry: bool,
    pub validator: bool,
    pub import_queue: Q,
}

impl<M, Q> PartialPlan<M, Q> {
    /// The plan for a configuration and what the import queue is built from.
    pub open spec fn of(config: Configuration<M>, import_queue: Q) -> Self {
        PartialPlan {
            executor: crate::config::executor_settings_of(config),
            telemetry: crate::config::wants_telemetry(config.telemetry_endpoints),
            validator: config.role is Authority,
            import_queue,
        }
    }

    /// The actions that follow once telemetry is started, where there is any.
    pub open spec fn assembly(self) -> Seq<PartialAction<M, Q>> {
        let spawn = if self.telemetry {
            seq![PartialAction::<M, Q>::SpawnTask { task: Task::Telemetry }]
        } else {
            seq![]
        };
        seq![
            PartialAction::BuildFullParts {
                executor: self.executor,
                telemetry: self.telemetry,
                enable_import_proof_recording: true,
            },
        ] + spawn + seq![
            PartialAction::CreateTransactionPool { is_validator: self.validator },
            PartialAction::CreateBlockImport,
            PartialAction::BuildImportQueue {
                import_queue: self.import_queue,
                telemetry: self.telemetry,
            },
        ]
    }

    /// The number of actions that start telemetry.
    pub open spec fn telemetry_starts(self) -> nat {
        if self.telemetry {
            1
        } else {
            0
        }
    }

    /// The number of actions of the whole assembly.
    pub open spec fn action_count(self) -> nat {
        self.telemetry_starts() + self.assembly().len()
    }
}

/// The actions of a whole assembly, in order.
pub open spec fn partial_sequence<M, Q>(config: Configuration<M>, import_queue: Q) -> Seq<
    PartialAction<M, Q>,
> {
    let start = if crate::config::wants_telemetry(config.telemetry_endpoints) {
        seq![
            PartialAction::<M, Q>::StartTelemetry {
                buffer_size: TELEMETRY_BUFFER_SIZE,
                endpoints: config.telemetry_endpoints->0,
            },
        ]
    } else {
        seq![]
    };
    start + PartialPlan::of(config, import_queue).assembly()
}

/// How far an assembly has come: its plan, and how many of the actions are done.
pub struct PartialProgress<M, Q> {
    pub plan: PartialPlan<M, Q>,
    pub done: nat,
}

impl<M, Q> PartialProgress<M, Q> {
    /// What follows the outcome of the pending action: a failure ends the assembly with that
    /// error, a success completes the action.
    pub open spec fn after<E>(self, outcome: Result<(), E>) -> Step<
        PartialProgress<M, Q>,
        PartialAction<M, Q>,
        Result<PartialComponents, E>,
    > {
        match outcome {
            Err(error) => Step::Return(Err(error)),
            Ok(_) => {
                let done = self.done + 1;
                if done < self.plan.action_count() {
                    Step::Continue(
                        PartialProgress { plan: self.plan, done },
                        self.plan.assembly()[done - self.plan.telemetry_starts()],
                    )
                } else {
                    Step::Return(Ok(PartialComponents { telemetry: self.plan.telemetry }))
                }
            },
        }
    }
}

/// The action that an assembly is waiting for.
#[derive(Debug, Clone, Copy, PartialEq, Eq, Structural)]
enum PartialStage {
    Telemetry,
    FullParts,
    TelemetryTask,
    TransactionPool,
    BlockImport,
    ImportQueue,
}

/// An assembly under way.
#[derive(Debug)]
pub struct PartialBuild<M, Q> {
    plan: PartialPlan<M, Q>,
    stage: PartialStage,
}

impl<M, Q> View for PartialBuild<M, Q> {
    type V = PartialProgress<M, Q>;

    closed spec fn view(&self) -> PartialProgress<M, Q> {
        PartialProgress { plan: self.plan, done: self.position() }
    }
}

impl<M, Q> PartialBuild<M, Q> {
    /// An assembly deals with telemetry where the plan has any.
    #[verifier::type_invariant]
    spec fn stage_is_due(self) -> bool {
        self.stage == PartialStage::Telemetry || self.stage == PartialStage::TelemetryTask
            ==> self.plan.telemetry
    }

    /// The number of actions that come before the stage.
    spec fn position(self) -> nat {
        let starts = self.plan.telemetry_starts();
        match self.stage {
            PartialStage::Telemetry => 0,
            PartialStage::FullParts => starts,
            PartialStage::TelemetryTask => 1 + starts,
            PartialStage::TransactionPool => 1 + 2 * starts,
            PartialStage::BlockImport => 2 + 2 * starts,
            PartialStage::ImportQueue => 3 + 2 * starts,
        }
    }
}

impl<M: Copy, Q: Copy> PartialBuild<M, Q> {
    /// Goes on to another stage than the first.
    fn proceed<E>(self, stage: PartialStage) -> (next: Step<
        PartialBuild<M, Q>,
        PartialAction<M, Q>,
        Result<PartialComponents, E>,
    >)
        requires
            stage != PartialStage::Telemetry,
            stage == PartialStage::TelemetryTask ==> self.plan.telemetry,
        ensures
            ({
                let state = PartialBuild { stage, ..self };
                &&& next matches Step::Continue(s, action)
                &&& s == state
                &&& state@.done < self.plan.action_count()
                &&& action == self.plan.assembly()[state@.done - self.plan.telemetry_starts()]
            }),
    {
        let telemetry = self.plan.telemetry;
        let action = match stage {
            PartialStage::Telemetry | PartialStage::FullParts => PartialAction::BuildFullParts {
                executor: self.plan.executor,
                telemetry,
                enable_import_proof_recording: true,
            },
            PartialStage::TelemetryTask => PartialAction::SpawnTask { task: Task::Telemetry },
            PartialStage::TransactionPool => PartialAction::CreateTransactionPool {
                is_validator: self.plan.validator,
            },
            PartialStage::BlockImport => PartialAction::CreateBlockImport,
            PartialStage::ImportQueue => PartialAction::BuildImportQueue {
                import_queue: self.plan.import_queue,
                telemetry,
            },
        };
        Step::Continue(PartialBuild { stage, ..self }, action)
    }

    /// Takes the outcome of the pending action, and decides what follows.
    pub fn step<E>(self, outcome: Result<(), E>) -> (next: Step<
        PartialBuild<M, Q>,
        PartialAction<M, Q>,
        Result<PartialComponents, E>,
    >)
        ensures
            step_view(next) == self@.after(outcome),
    {
        proof {
            use_type_invariant(&self);
        }
        match outcome {
            Err(error) => Step::Return(Err(error)),
            Ok(()) => match self.stage {
                PartialStage::Telemetry => self.proceed(PartialStage::FullParts),
                PartialStage::FullParts => if self.plan.telemetry {
                    self.proceed(PartialStage::TelemetryTask)
                } else {
                    self.proceed(PartialStage::TransactionPool)
                },
                PartialStage::TelemetryTask => self.proceed(PartialStage::TransactionPool),
                PartialStage::TransactionPool => self.proceed(PartialStage::BlockImport),
                PartialStage::BlockImport => self.proceed(PartialStage::ImportQueue),
                PartialStage::ImportQueue => Step::Return(
                    Ok(PartialComponents { telemetry: self.plan.telemetry }),
                ),
            },
        }
    }
}

/// A step of an assembly, with its state taken by its view.
pub open spec fn step_view<M, Q, E>(
    step: Step<PartialBuild<M, Q>, PartialAction<M, Q>, Result<PartialComponents, E>>,
) -> Step<PartialProgress<M, Q>, PartialAction<M, Q>, Result<PartialComponents, E>> {
    match step {
        Step::Continue(state, action) => Step::Continue(state@, action),
        Step::Return(result) => Step::Return(result),
    }
}

/// Begins to assemble the partial components of a node, with an import queue that is built from
/// `import_queue`.
pub fn new_partial<M: Copy, Q: Copy>(config: Configuration<M>, import_queue: Q) -> (start: (
    PartialBuild<M, Q>,
    PartialAction<M, Q>,
))
    ensures
        start.0@ == (PartialProgress { plan: PartialPlan::of(config, import_queue), done: 0 }),
        start.1 == partial_sequence(config, import_queue)[0],
{
    let executor = config.executor_settings();
    let validator = config.role.is_authority();
    match telemetry_endpoints(config.telemetry_endpoints) {
        Some(endpoints) => (
            PartialBuild {
                plan: PartialPlan { executor, telemetry: true, validator, import_queue },
                stage: PartialStage::Telemetry,
            },
            PartialAction::StartTelemetry { buffer_size: TELEMETRY_BUFFER_SIZE, endpoints },
        ),
        None => (
            PartialBuild {
                plan: PartialPlan { executor, telemetry: false, validator, import_queue },
                stage: PartialStage::FullParts,
            },
            PartialAction::BuildFullParts {
                executor,
                telemetry: false,
                enable_import_proof_recording: true,
            },
        ),
    }
}

} // verus!
