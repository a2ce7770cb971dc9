//! Waiting for Aura on chains that started out without it.
//!
//! Components that depend on Aura wait until its runtime API appears in a finalized block. Block
//! hashes, of type `H`, are only passed on.

use crate::step::Step;
use crate::tasks::Task;
use vstd::prelude::*;

verus! {

/// A wait for the Aura API, by what it is waiting for.
#[derive(Debug, Clone, Copy, PartialEq, Eq)]
pub enum WaitForAura<H> {
    /// The hash of the last finalized block.
    FinalizedHash,
    /// Whether the runtime has the API at the last finalized block.
    FinalizedApi { at: H },
    /// The subscription to finality notifications.
    Subscription,
    /// The next finality notification.
    Notification,
    /// Whether the runtime has the API at the block that was notified.
    NotifiedApi { at: H },
}

/// Outside work that the wait asks for.
#[derive(Debug, Clone, Copy, PartialEq, Eq)]
pub enum WaitAction<H> {
    ReadFinalizedHash,
    QueryAuraApi { at: H },
    Subscribe,
    AwaitNotification,
}

/// What an action ended with.
#[derive(Debug)]
pub enum WaitEvent<H, E> {
    /// The hash of the last finalized block.
    FinalizedHash(H),
    /// Whether the runtime has the Aura API, or why that is unknown.
    AuraApi(Result<bool, E>),
    /// Finality notifications arrive from now on.
    Subscribed,
    /// The hash of a block that was finalized, or the end of the notifications.
    Notification(Option<H>),
}

impl<H, E> WaitEvent<H, E> {
    /// Whether the event tells that the API is there. A query that fails counts as one that finds
    /// no API.
    pub open spec fn finds_aura(self) -> bool {
        self matches WaitEvent::AuraApi(Ok(true))
    }

    /// Whether the event tells that no block will be notified any more.
    pub open spec fn ends_notifications(self) -> bool {
        self matches WaitEvent::Notification(None)
    }
}

impl<H> WaitForAura<H> {
    /// The action to do next.
    pub open spec fn pending(self) -> WaitAction<H> {
        match self {
            WaitForAura::FinalizedHash => WaitAction::ReadFinalizedHash,
            WaitForAura::FinalizedApi { at } => WaitAction::QueryAuraApi { at },
            WaitForAura::Subscription => WaitAction::Subscribe,
            WaitForAura::Notification => WaitAction::AwaitNotification,
            WaitForAura::NotifiedApi { at } => WaitAction::QueryAuraApi { at },
        }
    }

    /// Whether an event is one that the pending action can end with.
    pub open spec fn answered_by<E>(self, event: WaitEvent<H, E>) -> bool {
        match self.pending() {
            WaitAction::ReadFinalizedHash => event is FinalizedHash,
            WaitAction::QueryAuraApi { .. } => event is AuraApi,
            WaitAction::Subscribe => event is Subscribed,
            WaitAction::AwaitNotification => event is Notification,
        }
    }

    /// What the wait is for once an event has answered the pending action without ending it: a
    /// block that was named is asked about, and after that the next notification is due.
    pub open spec fn next<E>(self, event: WaitEvent<H, E>) -> WaitForAura<H> {
        match event {
            WaitEvent::FinalizedHash(at) => WaitForAura::FinalizedApi { at },
            WaitEvent::Notification(Some(at)) => WaitForAura::NotifiedApi { at },
            WaitEvent::AuraApi(_) if self is FinalizedApi => WaitForAura::Subscription,
            _ => WaitForAura::Notification,
        }
    }

    /// What follows an event. One that does not answer the pending action changes nothing. The
    /// wait returns `true` once the API is there, and `false` when there is no block left at which
    /// it could appear.
    pub open spec fn after<E>(self, event: WaitEvent<H, E>) -> Step<
        WaitForAura<H>,
        WaitAction<H>,
        bool,
    > {
        if !self.answered_by(event) {
            Step::Continue(self, self.pending())
        } else if event.finds_aura() {
            Step::Return(true)
        } else if event.ends_notifications() {
            Step::Return(false)
        } else {
            Step::Continue(self.next(event), self.next(event).pending())
        }
    }
}

/// Whether a query found the API. One that failed did not.
fn finds_api<E>(has_aura_api: Result<bool, E>) -> (found: bool)
    ensures
        found == (has_aura_api matches Ok(true)),
{
    match has_aura_api {
        Ok(found) => found,
        Err(_) => false,
    }
}

impl<H: Copy> WaitForAura<H> {
    /// The action to do next.
    pub fn action(&self) -> (action: WaitAction<H>)
        ensures
            action == self.pending(),
    {
        match self {
            WaitForAura::FinalizedHash => WaitAction::ReadFinalizedHash,
            WaitForAura::FinalizedApi { at } => WaitAction::QueryAuraApi { at: *at },
            WaitForAura::Subscription => WaitAction::Subscribe,
            WaitForAura::Notification => WaitAction::AwaitNotification,
            WaitForAura::NotifiedApi { at } => WaitAction::QueryAuraApi { at: *at },
        }
    }

    /// Takes the event that the pending action ended with, and decides what follows. Returns
    /// whether the API has appeared.
    pub fn step<E>(self, event: WaitEvent<H, E>) -> (next: Step<
        WaitForAura<H>,
        WaitAction<H>,
        bool,
    >)
        ensures
            next == self.after(event),
    {
        let state = match (self, event) {
            (WaitForAura::FinalizedHash, WaitEvent::FinalizedHash(at)) => {
                WaitForAura::FinalizedApi { at }
            },
            (WaitForAura::FinalizedApi { .. }, WaitEvent::AuraApi(has_aura_api)) => {
                if finds_api(has_aura_api) {
                    return Step::Return(true);
                }
                WaitForAura::Subscription
            },
            (WaitForAura::Subscription, WaitEvent::Subscribed) => WaitForAura::Notification,
            (WaitForAura::Notification, WaitEvent::Notification(Some(at))) => {
                WaitForAura::NotifiedApi { at }
            },
            (WaitForAura::Notification, WaitEvent::Notification(None)) => {
                return Step::Return(false);
            },
            (WaitForAura::NotifiedApi { .. }, WaitEvent::AuraApi(has_aura_api)) => {
                if finds_api(has_aura_api) {
                    return Step::Return(true);
                }
                WaitForAura::Notification
            },
            _ => self,
        };
        let action = state.action();
        Step::Continue(state, action)
    }
}

/// Begins to wait for the Aura API to appear on chain: it is looked for at the last finalized
/// block first, then at each block that is finalized from then on.
pub fn wait_for_aura<H: Copy>() -> (start: (WaitForAura<H>, WaitAction<H>))
    ensures
        start.0 == WaitForAura::<H>::FinalizedHash,
        start.1 == start.0.pending(),
{
    (WaitForAura::FinalizedHash, WaitAction::ReadFinalizedHash)
}

/// Where a wait stands after a series of events.
pub open spec fn wait_after<H, E>(events: Seq<WaitEvent<H, E>>) -> Step<
    WaitForAura<H>,
    WaitAction<H>,
    bool,
>
    decreases events.len(),
{
    if events.len() == 0 {
        Step::Continue(WaitForAura::FinalizedHash, WaitForAura::<H>::FinalizedHash.pending())
    } else {
        match wait_after(events.drop_last()) {
            Step::Continue(wait, _) => wait.after(events.last()),
            Step::Return(found) => Step::Return(found),
        }
    }
}

/// Whether every event answers the action that was pending when it came.
pub open spec fn each_answers<H, E>(events: Seq<WaitEvent<H, E>>) -> bool
    decreases events.len(),
{
    events.len() == 0 || {
        &&& each_answers(events.drop_last())
        &&& wait_after(events.drop_last()) matches Step::Continue(wait, _)
        &&& wait.answered_by(events.last())
    }
}

/// If a wait returns that Aura is there, a query has found it, whatever else came.
pub proof fn lemma_aura_has_appeared<H, E>(events: Seq<WaitEvent<H, E>>)
    requires
        wait_after(events) == Step::<WaitForAura<H>, WaitAction<H>, bool>::Return(true),
    ensures
        exists|i: int| 0 <= i < events.len() && (#[trigger] events[i]).finds_aura(),
    decreases events.len(),
{
    if events.len() > 0 {
        let before = events.drop_last();
        if wait_after(before) is Return {
            lemma_aura_has_appeared(before);
            let i = choose|i: int| 0 <= i < before.len() && (#[trigger] before[i]).finds_aura();
            assert(events[i].finds_aura());
        } else {
            assert(events[events.len() - 1].finds_aura());
        }
    }
}

/// A wait returns that Aura is there with the query that finds it, and that it is not with the end
/// of the notifications; it goes on through every block without the API.
pub proof fn lemma_waits_until_aura<H, E>(events: Seq<WaitEvent<H, E>>)
    requires
        each_answers(events),
    ensures
        match wait_after(events) {
            Step::Return(true) => events.len() > 0 && events.last().finds_aura(),
            Step::Return(false) => events.len() > 0 && events.last().ends_notifications(),
            Step::Continue(_, _) => events.len() > 0 ==> !events.last().finds_aura()
                && !events.last().ends_notifications(),
        },
        forall|i: int|
            0 <= i < events.len() - 1 ==> !(#[trigger] events[i]).finds_aura()
                && !events[i].ends_notifications(),
    decreases events.len(),
{
    if events.len() > 0 {
        let before = events.drop_last();
        lemma_waits_until_aura(before);
        assert forall|i: int| 0 <= i < events.len() - 1 implies !(
        #[trigger] events[i]).finds_aura() && !events[i].ends_notifications() by {
            assert(events[i] == before[i]);
        }
    }
}

/// Aura is found at a finalized block: the last finalized one, or one that was notified since.
pub proof fn lemma_found_at_finalized_block<H, E>(events: Seq<WaitEvent<H, E>>)
    requires
        each_answers(events),
        wait_after(events) == Step::<WaitForAura<H>, WaitAction<H>, bool>::Return(true),
    ensures
        events.len() >= 2,
        wait_after(events.drop_last()) matches Step::Continue(_, WaitAction::QueryAuraApi { at })
            && (events[events.len() - 2] == WaitEvent::<H, E>::FinalizedHash(at)
            || events[events.len() - 2] == WaitEvent::<H, E>::Notification(Some(at))),
{
    let before = events.drop_last();
    assert(before.len() > 0);
    let earlier = before.drop_last();
    assert(before.last() == events[events.len() - 2]);
    assert(each_answers(before));
    if let Step::Continue(wait, _) = wait_after(earlier) {
        assert(wait_after(before) == wait.after(before.last()));
    }
}

/// The API is only ever looked for at the block that the latest event named, and every block that
/// is named is looked at.
pub proof fn lemma_asks_about_named_block<H, E>(
    events: Seq<WaitEvent<H, E>>,
    event: WaitEvent<H, E>,
)
    requires
        each_answers(events.push(event)),
    ensures
        match (event, wait_after(events.push(event))) {
            (WaitEvent::FinalizedHash(at), Step::Continue(_, action)) => action == (
            WaitAction::QueryAuraApi { at }),
            (WaitEvent::FinalizedHash(_), Step::Return(_)) => false,
            (WaitEvent::Notification(Some(at)), Step::Continue(_, action)) => action == (
            WaitAction::QueryAuraApi { at }),
            (WaitEvent::Notification(Some(_)), Step::Return(_)) => false,
            (_, Step::Continue(_, action)) => !(action is QueryAuraApi),
            (_, Step::Return(_)) => true,
        },
{
    assert(events.push(event).drop_last() =~= events);
}

/// A task of an Aura collator: it waits for Aura, then does its work.
#[derive(Debug, Clone, Copy, PartialEq, Eq)]
pub struct CollatorTask<H> {
    /// The task that it is spawned as.
    pub task: Task,
    pub phase: CollatorPhase<H>,
}

/// What a task of a collator is at.
#[derive(Debug, Clone, Copy, PartialEq, Eq)]
pub enum CollatorPhase<H> {
    Waiting(WaitForAura<H>),
    Collating,
}

/// Outside work that the task asks for.
#[derive(Debug, Clone, Copy, PartialEq, Eq)]
pub enum CollatorAction<H> {
    /// Go on with the wait.
    Wait(WaitAction<H>),
    /// Do the work of the task.
    Run { task: Task },
}

/// What an action ended with.
#[derive(Debug)]
pub enum CollatorEvent<H, E> {
    Waited(WaitEvent<H, E>),
    /// The work of the task has ended.
    Ended,
}

impl<H> CollatorTask<H> {
    /// A task that has not done anything yet.
    pub open spec fn fresh(task: Task) -> Self {
        CollatorTask { task, phase: CollatorPhase::Waiting(WaitForAura::FinalizedHash) }
    }

    /// The action to do next.
    pub open spec fn pending(self) -> CollatorAction<H> {
        match self.phase {
            CollatorPhase::Waiting(wait) => CollatorAction::Wait(wait.pending()),
            CollatorPhase::Collating => CollatorAction::Run { task: self.task },
        }
    }

    /// What follows an event. One that does not answer the pending action changes nothing. A task
    /// that waited in vain ends without having done its work.
    pub open spec fn after<E>(self, event: CollatorEvent<H, E>) -> Step<
        CollatorTask<H>,
        CollatorAction<H>,
        (),
    > {
        match (self.phase, event) {
            (CollatorPhase::Waiting(wait), CollatorEvent::Waited(waited)) => {
                match wait.after(waited) {
                    Step::Continue(still, action) => Step::Continue(
                        CollatorTask { phase: CollatorPhase::Waiting(still), ..self },
                        CollatorAction::Wait(action),
                    ),
                    Step::Return(true) => Step::Continue(
                        CollatorTask { phase: CollatorPhase::Collating, ..self },
                        CollatorAction::Run { task: self.task },
                    ),
                    Step::Return(false) => Step::Return(()),
                }
            },
            (CollatorPhase::Collating, CollatorEvent::Ended) => Step::Return(()),
            _ => Step::Continue(self, self.pending()),
        }
    }
}

impl<H: Copy> CollatorTask<H> {
    /// Begins a task of a collator, with the wait for Aura.
    pub fn begin(task: Task) -> (start: CollatorTask<H>)
        ensures
            start == CollatorTask::<H>::fresh(task),
    {
        let (wait, _) = wait_for_aura();
        CollatorTask { task, phase: CollatorPhase::Waiting(wait) }
    }

    /// The action to do next.
    pub fn action(&self) -> (action: CollatorAction<H>)
        ensures
            action == self.pending(),
    {
        match self.phase {
            CollatorPhase::Waiting(wait) => CollatorAction::Wait(wait.action()),
            CollatorPhase::Collating => CollatorAction::Run { task: self.task },
        }
    }

    /// Takes the event that the pending action ended with, and decides what follows.
    pub fn step<E>(self, event: CollatorEvent<H, E>) -> (next: Step<
        CollatorTask<H>,
        CollatorAction<H>,
        (),
    >)
        ensures
            next == self.after(event),
    {
        match (self.phase, event) {
            (CollatorPhase::Waiting(wait), CollatorEvent::Waited(waited)) => {
                match wait.step(waited) {
                    Step::Continue(still, action) => Step::Continue(
                        CollatorTask { phase: CollatorPhase::Waiting(still), ..self },
                        CollatorAction::Wait(action),
                    ),
                    Step::Return(found) => if found {
                        Step::Continue(
                            CollatorTask { phase: CollatorPhase::Collating, ..self },
                            CollatorAction::Run { task: self.task },
                        )
                    } else {
                        Step::Return(())
                    },
                }
            },
            (CollatorPhase::Collating, CollatorEvent::Ended) => Step::Return(()),
            _ => {
                let action = self.action();
                Step::Continue(self, action)
            },
        }
    }
}

/// Where a task of a collator stands after a series of events.
pub open spec fn collator_after<H, E>(task: Task, events: Seq<CollatorEvent<H, E>>) -> Step<
    CollatorTask<H>,
    CollatorAction<H>,
    (),
>
    decreases events.len(),
{
    if events.len() == 0 {
        Step::Continue(CollatorTask::fresh(task), CollatorTask::<H>::fresh(task).pending())
    } else {
        match collator_after(task, events.drop_last()) {
            Step::Continue(state, _) => state.after(events.last()),
            Step::Return(_) => Step::Return(()),
        }
    }
}

/// The events of a wait, as a task of a collator sees them.
pub open spec fn as_waited<H, E>(events: Seq<WaitEvent<H, E>>) -> Seq<CollatorEvent<H, E>> {
    events.map_values(|event: WaitEvent<H, E>| CollatorEvent::Waited(event))
}

/// A task of a collator does its work if and only if the wait for Aura has returned that Aura is
/// there. It waits for as long as the wait goes on, and ends where it was in vain.
pub proof fn lemma_collates_after_wait<H, E>(task: Task, events: Seq<WaitEvent<H, E>>)
    ensures
        match wait_after(events) {
            Step::Continue(wait, action) => collator_after(task, as_waited(events)) == Step::<
                CollatorTask<H>,
                CollatorAction<H>,
                (),
            >::Continue(
                CollatorTask { task, phase: CollatorPhase::Waiting(wait) },
                CollatorAction::Wait(action),
            ),
            Step::Return(true) => collator_after(task, as_waited(events)) == Step::<
                CollatorTask<H>,
                CollatorAction<H>,
                (),
            >::Continue(
                CollatorTask { task, phase: CollatorPhase::Collating },
                CollatorAction::Run { task },
            ),
            Step::Return(false) => collator_after(task, as_waited(events)) is Return,
        },
    decreases events.len(),
{
    if events.len() > 0 {
        lemma_collates_after_wait(task, events.drop_last());
        assert(as_waited(events).drop_last() =~= as_waited(events.drop_last()));
    }
}

/// Whenever a task of a collator is asked to do its work, whatever came, a query has found Aura;
/// and the work is its own.
pub proof fn lemma_no_work_before_aura<H, E>(task: Task, events: Seq<CollatorEvent<H, E>>)
    ensures
        collator_after(task, events) matches Step::Continue(state, action) ==> {
            &&& state.task == task
            &&& action == state.pending()
            &&& action is Run ==> exists|i: int|
                0 <= i < events.len() && (#[trigger] events[i] matches CollatorEvent::Waited(event)
                    && event.finds_aura())
        },
    decreases events.len(),
{
    if events.len() > 0 {
        let before = events.drop_last();
        lemma_no_work_before_aura(task, before);
        if let Step::Continue(state, action) = collator_after(task, before) {
            if action is Run {
                let i = choose|i: int|
                    0 <= i < before.len() && (#[trigger] before[i] matches CollatorEvent::Waited(
                        event,
                    ) && event.finds_aura());
                assert(events[i] == before[i]);
            } else {
                assert(events[events.len() - 1] == events.last());
            }
        }
    }
}

} // verus!
