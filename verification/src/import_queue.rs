//! Import queues: what is checked of a block before it is imported.

use vstd::prelude::*;

verus! {

/// The import queues that a node can be built with.
#[derive(Debug, Clone, Copy, PartialEq, Eq, Structural)]
pub enum ImportQueue {
    /// For chains that have always run Aura.
    Aura,
    /// For the shell runtime, under relay chain consensus.
    Shell,
    /// For chains that started under relay chain consensus and switched to Aura.
    RelayToAura,
}

/// Where the slot duration of a block comes from.
#[derive(Debug, Clone, Copy, PartialEq, Eq, Structural)]
pub enum SlotDurationSource {
    /// It is the same for all blocks, in milliseconds.
    Fixed { slot_duration: u64 },
    /// It is asked of the runtime at the parent of each block.
    AtParent,
}

/// How the slot duration of one block is come by. `H` is the type of block hashes.
#[derive(Debug, Clone, Copy, PartialEq, Eq)]
pub enum SlotDurationQuery<H> {
    /// It is known, in milliseconds.
    Known { slot_duration: u64 },
    /// The runtime is to be asked for it at this block.
    AskAt { at: H },
}

impl SlotDurationSource {
    /// How the slot duration of a block with this parent is come by.
    pub open spec fn query_for<H>(self, parent_hash: H) -> SlotDurationQuery<H> {
        match self {
            SlotDurationSource::Fixed { slot_duration } => SlotDurationQuery::Known {
                slot_duration,
            },
            SlotDurationSource::AtParent => SlotDurationQuery::AskAt { at: parent_hash },
        }
    }

    /// Tells how the slot duration of a block is come by: a fixed one is known whatever the parent,
    /// any other is asked for at the parent.
    pub fn query<H: Copy>(self, parent_hash: H) -> (query: SlotDurationQuery<H>)
        ensures
            query == self.query_for(parent_hash),
    {
        match self {
            SlotDurationSource::Fixed { slot_duration } => SlotDurationQuery::Known {
                slot_duration,
            },
            SlotDurationSource::AtParent => SlotDurationQuery::AskAt { at: parent_hash },
        }
    }
}

/// The verifier of an import queue. None of them imports justifications.
#[derive(Debug, Clone, Copy, PartialEq, Eq, Structural)]
pub enum QueueVerifier {
    /// Checks Aura's seals and inherents, the latter against the slot and the timestamp.
    Aura { slot_duration: SlotDurationSource },
    /// Checks what relay chain consensus asks of a block, without any inherent data.
    RelayChain,
    /// Checks each block in the one way or the other, as [`Verifier`] decides.
    RelayToAura { slot_duration: SlotDurationSource },
}

/// What an import queue is built from.
#[derive(Debug, Clone, Copy, PartialEq, Eq, Structural)]
pub struct ImportQueuePlan {
    pub verifier: QueueVerifier,
    /// Whether verification is reported over telemetry.
    pub telemetry: bool,
}

/// The import queue of an Aura chain with slots of this duration, in milliseconds.
pub open spec fn aura_plan(slot_duration: u64, telemetry: bool) -> ImportQueuePlan {
    ImportQueuePlan {
        verifier: QueueVerifier::Aura {
            slot_duration: SlotDurationSource::Fixed { slot_duration },
        },
        telemetry,
    }
}

/// The import queue of the shell runtime.
pub open spec fn shell_plan() -> ImportQueuePlan {
    ImportQueuePlan { verifier: QueueVerifier::RelayChain, telemetry: false }
}

/// The import queue of a chain that switches from relay chain consensus to Aura.
pub open spec fn relay_to_aura_plan(telemetry: bool) -> ImportQueuePlan {
    ImportQueuePlan {
        verifier: QueueVerifier::RelayToAura { slot_duration: SlotDurationSource::AtParent },
        telemetry,
    }
}

/// The import queue of an Aura chain, once its slot duration was asked of the runtime: blocks are
/// checked against that duration from then on. A failed query is handed back as it is.
pub fn build_aura_import_queue<E>(slot_duration: Result<u64, E>, telemetry: bool) -> (plan: Result<
    ImportQueuePlan,
    E,
>)
    ensures
        match slot_duration {
            Ok(duration) => plan == Ok::<ImportQueuePlan, E>(aura_plan(duration, telemetry)),
            Err(error) => plan == Err::<ImportQueuePlan, E>(error),
        },
{
    match slot_duration {
        Ok(duration) => Ok(
            ImportQueuePlan {
                verifier: QueueVerifier::Aura {
                    slot_duration: SlotDurationSource::Fixed { slot_duration: duration },
                },
                telemetry,
            },
        ),
        Err(error) => Err(error),
    }
}

/// The import queue of the shell runtime. It has no use for inherent data or telemetry.
pub fn build_shell_import_queue(_telemetry: bool) -> (plan: ImportQueuePlan)
    ensures
        plan == shell_plan(),
{
    ImportQueuePlan { verifier: QueueVerifier::RelayChain, telemetry: false }
}

/// The import queue of a chain that started with relay chain consensus and switched to Aura. The
/// slot duration may change on the way, so it is asked for at the parent of each block.
pub fn build_relay_to_aura_import_queue(telemetry: bool) -> (plan: ImportQueuePlan)
    ensures
        plan == relay_to_aura_plan(telemetry),
{
    ImportQueuePlan {
        verifier: QueueVerifier::RelayToAura { slot_duration: SlotDurationSource::AtParent },
        telemetry,
    }
}

/// What each import queue is built from. That of an Aura chain takes the runtime's answer to what
/// its slot duration is, and cannot be planned before there is one; the others have no use for it.
pub open spec fn import_queue_plan<E>(
    import_queue: ImportQueue,
    slot_duration: Option<Result<u64, E>>,
    telemetry: bool,
) -> Option<Result<ImportQueuePlan, E>> {
    match import_queue {
        ImportQueue::Aura => match slot_duration {
            Some(Ok(duration)) => Some(Ok(aura_plan(duration, telemetry))),
            Some(Err(error)) => Some(Err(error)),
            None => None,
        },
        ImportQueue::Shell => Some(Ok(shell_plan())),
        ImportQueue::RelayToAura => Some(Ok(relay_to_aura_plan(telemetry))),
    }
}

impl ImportQueue {
    /// Whether the runtime is to be asked for the slot duration before the queue is built.
    pub fn needs_slot_duration(self) -> (needs: bool)
        ensures
            needs <==> self is Aura,
    {
        match self {
            ImportQueue::Aura => true,
            ImportQueue::Shell | ImportQueue::RelayToAura => false,
        }
    }

    /// Plans the queue, with the runtime's answer to what its slot duration is where that was
    /// asked. Returns nothing where the answer is needed and missing.
    pub fn plan<E>(self, slot_duration: Option<Result<u64, E>>, telemetry: bool) -> (plan: Option<
        Result<ImportQueuePlan, E>,
    >)
        ensures
            plan == import_queue_plan(self, slot_duration, telemetry),
    {
        match self {
            ImportQueue::Aura => match slot_duration {
                Some(answer) => Some(build_aura_import_queue(answer, telemetry)),
                None => None,
            },
            ImportQueue::Shell => Some(Ok(build_shell_import_queue(telemetry))),
            ImportQueue::RelayToAura => Some(Ok(build_relay_to_aura_import_queue(telemetry))),
        }
    }
}

/// The queue of an Aura chain checks every block against the one slot duration that it was built
/// with; the queue of a chain that switches to Aura asks for that of each block at its parent; the
/// shell's has no slots.
pub proof fn lemma_slot_durations<E, H>(
    import_queue: ImportQueue,
    answer: Option<Result<u64, E>>,
    telemetry: bool,
    parent_hash: H,
)
    ensures
        import_queue_plan(import_queue, answer, telemetry) matches Some(Ok(plan)) ==> {
            match plan.verifier {
                QueueVerifier::Aura { slot_duration } => {
                    &&& import_queue is Aura
                    &&& answer matches Some(Ok(duration))
                    &&& slot_duration.query_for(parent_hash) == SlotDurationQuery::<H>::Known {
                        slot_duration: duration,
                    }
                },
                QueueVerifier::RelayChain => import_queue is Shell,
                QueueVerifier::RelayToAura { slot_duration } => {
                    &&& import_queue is RelayToAura
                    &&& slot_duration.query_for(parent_hash) == SlotDurationQuery::<H>::AskAt {
                        at: parent_hash,
                    }
                },
            }
        },
{
}

/// Once the runtime has answered where it is to be asked, every queue is planned, and planning
/// fails only with the answer of a chain that has always run Aura. A queue reports over telemetry
/// what it is told to, except that the shell's never does.
pub proof fn lemma_planning_fails_by_the_answer_only<E>(
    import_queue: ImportQueue,
    answer: Option<Result<u64, E>>,
    telemetry: bool,
)
    ensures
        import_queue_plan(import_queue, answer, telemetry) is None <==> import_queue is Aura
            && answer is None,
        match import_queue_plan(import_queue, answer, telemetry) {
            Some(Err(error)) => import_queue is Aura && answer == Some(Err::<u64, E>(error)),
            _ => !(import_queue is Aura && answer matches Some(Err(_))),
        },
        import_queue_plan(import_queue, answer, telemetry) matches Some(Ok(plan))
            ==> plan.telemetry == (telemetry && !(import_queue is Shell)),
{
}

/// A block to import. Apart from the hash of its parent it is only passed on.
#[derive(Debug)]
pub struct BlockImportParams<H, B> {
    pub parent_hash: H,
    pub block: B,
}

/// The verification that a block is handed to.
#[derive(Debug)]
pub enum VerifyWith<H, B> {
    Aura(BlockImportParams<H, B>),
    RelayChain(BlockImportParams<H, B>),
}

/// The verification of a block on a chain that switches from relay chain consensus to Aura.
#[derive(Debug)]
pub struct Verifier<H, B> {
    block_import: BlockImportParams<H, B>,
}

impl<H, B> View for Verifier<H, B> {
    type V = BlockImportParams<H, B>;

    closed spec fn view(&self) -> BlockImportParams<H, B> {
        self.block_import
    }
}

impl<H: Copy, B> Verifier<H, B> {
    /// The verification of this block.
    pub fn new(block_import: BlockImportParams<H, B>) -> (verifier: Self)
        ensures
            verifier@ == block_import,
    {
        Verifier { block_import }
    }

    /// The block at which the runtime is to be asked for the Aura API: the parent, whose runtime
    /// is the one that the block was built with.
    pub fn asks_at(&self) -> (at: H)
        ensures
            at == self@.parent_hash,
    {
        self.block_import.parent_hash
    }

    /// Hands the block, as it is, to the verification that its runtime calls for: Aura where the
    /// API was found, else relay chain consensus.
    pub fn verify(self, has_aura_api: bool) -> (verification: VerifyWith<H, B>)
        ensures
            verification == (if has_aura_api {
                VerifyWith::Aura(self@)
            } else {
                VerifyWith::RelayChain(self@)
            }),
    {
        if has_aura_api {
            VerifyWith::Aura(self.block_import)
        } else {
            VerifyWith::RelayChain(self.block_import)
        }
    }
}

/// A fixed slot duration is known for every block alike; any other is asked for at the parent of
/// the block, and nowhere else.
pub proof fn lemma_query_by_source<H: Copy>(
    source: SlotDurationSource,
    parent_hash: H,
    query: SlotDurationQuery<H>,
)
    requires
        call_ensures(SlotDurationSource::query::<H>, (source, parent_hash), query),
    ensures
        match (source, query) {
            (
                SlotDurationSource::Fixed { slot_duration: fixed },
                SlotDurationQuery::Known { slot_duration },
            ) => slot_duration == fixed,
            (SlotDurationSource::AtParent, SlotDurationQuery::AskAt { at }) => at == parent_hash,
            _ => false,
        },
{
}

/// The queue of an Aura chain is built if and only if its slot duration is known. It then checks
/// Aura with that duration for good, and reports over telemetry where it was told to; a failure is
/// handed back as it is.
pub proof fn lemma_aura_queue_by_answer<E>(
    answer: Result<u64, E>,
    telemetry: bool,
    plan: Result<ImportQueuePlan, E>,
)
    requires
        call_ensures(build_aura_import_queue::<E>, (answer, telemetry), plan),
    ensures
        match (answer, plan) {
            (Ok(duration), Ok(planned)) => {
                &&& planned.telemetry == telemetry
                &&& planned.verifier matches QueueVerifier::Aura {
                    slot_duration: SlotDurationSource::Fixed { slot_duration },
                }
                &&& slot_duration == duration
            },
            (Err(error), Err(returned)) => returned == error,
            _ => false,
        },
{
}

/// The shell's queue checks relay chain consensus and reports nothing, whatever it is told.
pub proof fn lemma_shell_queue_reports_nothing(telemetry: bool, plan: ImportQueuePlan)
    requires
        call_ensures(build_shell_import_queue, (telemetry,), plan),
    ensures
        plan.verifier is RelayChain,
        !plan.telemetry,
{
}

/// The queue of a chain that switches to Aura asks for slot durations at the parent of each block,
/// and reports over telemetry where it was told to.
pub proof fn lemma_relay_to_aura_queue_asks(telemetry: bool, plan: ImportQueuePlan)
    requires
        call_ensures(build_relay_to_aura_import_queue, (telemetry,), plan),
    ensures
        plan.verifier matches QueueVerifier::RelayToAura { slot_duration } && slot_duration
            is AtParent,
        plan.telemetry == telemetry,
{
}

/// Each queue is planned as its own, from the answer where it needs one. Nothing is planned only
/// where the answer is needed and was not asked for.
pub proof fn lemma_each_queue_planned_as_its_own<E>(
    import_queue: ImportQueue,
    answer: Option<Result<u64, E>>,
    telemetry: bool,
    needs: bool,
    plan: Option<Result<ImportQueuePlan, E>>,
)
    requires
        call_ensures(ImportQueue::needs_slot_duration, (import_queue,), needs),
        call_ensures(ImportQueue::plan::<E>, (import_queue, answer, telemetry), plan),
    ensures
        needs <==> import_queue is Aura,
        plan is None <==> needs && answer is None,
        plan matches Some(Err(error)) ==> needs && answer == Some(Err::<u64, E>(error)),
        plan matches Some(Ok(planned)) ==> match planned.verifier {
            QueueVerifier::Aura { slot_duration } => {
                &&& import_queue is Aura
                &&& planned.telemetry == telemetry
                &&& slot_duration matches SlotDurationSource::Fixed { slot_duration }
                &&& answer == Some(Ok::<u64, E>(slot_duration))
            },
            QueueVerifier::RelayChain => import_queue is Shell && !planned.telemetry,
            QueueVerifier::RelayToAura { slot_duration } => {
                &&& import_queue is RelayToAura
                &&& planned.telemetry == telemetry
                &&& slot_duration is AtParent
            },
        },
{
}

/// On a chain that switches to Aura, whether a block is checked as an Aura block is asked at its
/// parent. It then goes unchanged to Aura's verifier where Aura is there, and to that of relay
/// chain consensus where it is not.
pub proof fn lemma_block_verified_by_parent_runtime<H: Copy, B>(
    block_import: BlockImportParams<H, B>,
    verifier: Verifier<H, B>,
    at: H,
    has_aura_api: bool,
    verification: VerifyWith<H, B>,
)
    requires
        call_ensures(Verifier::<H, B>::new, (block_import,), verifier),
        call_ensures(Verifier::<H, B>::asks_at, (&verifier,), at),
        call_ensures(Verifier::<H, B>::verify, (verifier, has_aura_api), verification),
    ensures
        at == block_import.parent_hash,
        match verification {
            VerifyWith::Aura(params) => has_aura_api && params == block_import,
            VerifyWith::RelayChain(params) => !has_aura_api && params == block_import,
        },
{
}

} // verus!
