//! The background tasks that a node spawns under a name of its own.

use vstd::prelude::*;

verus! {

/// A background task of a node.
#[derive(Debug, Clone, Copy, PartialEq, Eq, Structural)]
pub enum Task {
    /// Reports telemetry to the endpoints.
    Telemetry,
    /// Reports the hardware benchmark over telemetry.
    TelemetryHwbench,
    /// Waits for Aura, then collates with the lookahead collator.
    Aura,
    /// Submits the collations of the slot-based collator.
    Collation,
    /// Builds the blocks of the slot-based collator.
    BlockBuilder,
}

impl Task {
    /// The name of the task.
    pub open spec fn name_of(self) -> Seq<char> {
        match self {
            Task::Telemetry => "telemetry"@,
            Task::TelemetryHwbench => "telemetry_hwbench"@,
            Task::Aura => "aura"@,
            Task::Collation => "collation-task"@,
            Task::BlockBuilder => "block-builder-task"@,
        }
    }

    /// Whether the task belongs to the slot-based collator.
    pub open spec fn is_slot_based(self) -> bool {
        self is Collation || self is BlockBuilder
    }

    /// Whether the task is one that the node cannot do without.
    pub open spec fn essential(self) -> bool {
        self is Aura || self.is_slot_based()
    }

    /// The name that the task is spawned under.
    pub fn name(self) -> (name: &'static str)
        ensures
            name@ == self.name_of(),
    {
        match self {
            Task::Telemetry => "telemetry",
            Task::TelemetryHwbench => "telemetry_hwbench",
            Task::Aura => "aura",
            Task::Collation => "collation-task",
            Task::BlockBuilder => "block-builder-task",
        }
    }

    /// The group that the task is spawned in, if any: the tasks of the slot-based collator share
    /// one.
    pub fn group(self) -> (group: Option<&'static str>)
        ensures
            group is Some <==> self.is_slot_based(),
            group matches Some(name) ==> name@ == "parachain-block-authoring"@,
    {
        match self {
            Task::Collation | Task::BlockBuilder => Some("parachain-block-authoring"),
            Task::Telemetry | Task::TelemetryHwbench | Task::Aura => None,
        }
    }

    /// Whether the node goes down with the task: it does with the collators, not with telemetry.
    pub fn is_essential(self) -> (essential: bool)
        ensures
            essential == self.essential(),
    {
        match self {
            Task::Telemetry | Task::TelemetryHwbench => false,
            Task::Aura | Task::Collation | Task::BlockBuilder => true,
        }
    }
}

/// No two tasks share a name.
pub proof fn lemma_task_names_distinct(first: Task, second: Task)
    requires
        first != second,
    ensures
        first.name_of() != second.name_of(),
{
    reveal_strlit("telemetry");
    reveal_strlit("telemetry_hwbench");
    reveal_strlit("aura");
    reveal_strlit("collation-task");
    reveal_strlit("block-builder-task");
    // The names all differ in length.
    assert(first.name_of().len() != second.name_of().len());
}

/// Each task goes by its own name.
pub proof fn lemma_task_goes_by_name(task: Task, name: &'static str)
    requires
        call_ensures(Task::name, (task,), name),
    ensures
        task is Telemetry <==> name@ == "telemetry"@,
        task is TelemetryHwbench <==> name@ == "telemetry_hwbench"@,
        task is Aura <==> name@ == "aura"@,
        task is Collation <==> name@ == "collation-task"@,
        task is BlockBuilder <==> name@ == "block-builder-task"@,
{
    reveal_strlit("telemetry");
    reveal_strlit("telemetry_hwbench");
    reveal_strlit("aura");
    reveal_strlit("collation-task");
    reveal_strlit("block-builder-task");
    assert("telemetry"@.len() == 9);
    assert("telemetry_hwbench"@.len() == 17);
    assert("aura"@.len() == 4);
    assert("collation-task"@.len() == 14);
    assert("block-builder-task"@.len() == 18);
}

/// The two tasks of the slot-based collator, and no others, share the group for block authoring.
pub proof fn lemma_slot_based_tasks_share_group(task: Task, group: Option<&'static str>)
    requires
        call_ensures(Task::group, (task,), group),
    ensures
        match group {
            Some(name) => (task is Collation || task is BlockBuilder) && name@
                == "parachain-block-authoring"@,
            None => task is Telemetry || task is TelemetryHwbench || task is Aura,
        },
{
}

/// A node can do without telemetry, and without no other task.
pub proof fn lemma_node_can_do_without_telemetry_only(task: Task, essential: bool)
    requires
        call_ensures(Task::is_essential, (task,), essential),
    ensures
        !essential <==> task is Telemetry || task is TelemetryHwbench,
{
}

} // verus!
