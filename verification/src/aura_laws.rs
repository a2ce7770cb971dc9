//! What holds of every wait for Aura and of every collator that waits, whatever happens on the way.

use crate::aura::{
    self, CollatorAction, CollatorEvent, CollatorPhase, CollatorTask, WaitAction, WaitEvent,
    WaitForAura,
};
use crate::step::Step;
use crate::tasks::Task;
use vstd::prelude::*;

verus! {

/// A wait begins by reading which block was finalized last.
pub proof fn lemma_begins_at_finalized_block<H: Copy>(start: (WaitForAura<H>, WaitAction<H>))
    requires
        call_ensures(aura::wait_for_aura::<H>, (), start),
    ensures
        start.0 is FinalizedHash,
        start.1 is ReadFinalizedHash,
{
}

/// What a wait does with each report. A block that is named is asked about, and no other. A query
/// that finds the API ends the wait with `true`, and the end of the notifications ends it with
/// `false`; nothing else ends it. Whether a query fails or finds nothing makes no difference:
/// about the last finalized block it leads to the subscription, about a notified one to the next
/// notification, on the subscription that is there. A report that was not asked for changes
/// nothing.
pub proof fn lemma_wait_by_report<H: Copy, E>(
    wait: WaitForAura<H>,
    action: WaitAction<H>,
    event: WaitEvent<H, E>,
    next: Step<WaitForAura<H>, WaitAction<H>, bool>,
)
    requires
        call_ensures(WaitForAura::<H>::action, (&wait,), action),
        call_ensures(WaitForAura::<H>::step::<E>, (wait, event), next),
    ensures
        match (action, event) {
            (WaitAction::ReadFinalizedHash, WaitEvent::FinalizedHash(hash)) => {
                &&& next matches Step::Continue(_, WaitAction::QueryAuraApi { at })
                &&& at == hash
            },
            (WaitAction::QueryAuraApi { .. }, WaitEvent::AuraApi(Ok(true))) => {
                next matches Step::Return(true)
            },
            (WaitAction::QueryAuraApi { .. }, WaitEvent::AuraApi(_)) => {
                &&& next matches Step::Continue(_, following)
                &&& wait is NotifiedApi ==> following is AwaitNotification
                &&& wait is FinalizedApi ==> following is Subscribe
            },
            (WaitAction::Subscribe, WaitEvent::Subscribed) => {
                next matches Step::Continue(_, WaitAction::AwaitNotification)
            },
            (WaitAction::AwaitNotification, WaitEvent::Notification(Some(hash))) => {
                &&& next matches Step::Continue(_, WaitAction::QueryAuraApi { at })
                &&& at == hash
            },
            (WaitAction::AwaitNotification, WaitEvent::Notification(None)) => {
                next matches Step::Return(false)
            },
            _ => {
                &&& next matches Step::Continue(same, again)
                &&& same == wait
                &&& again == action
            },
        },
        next matches Step::Continue(state, following) ==> following == state.pending(),
{
}

/// The same, of the state that a series of reports has led to.
pub proof fn lemma_wait_goes_on<H, E>(events: Seq<WaitEvent<H, E>>, event: WaitEvent<H, E>)
    requires
        aura::wait_after(events) is Continue,
    ensures
        aura::wait_after(events) matches Step::Continue(_, action) && {
            let next = aura::wait_after(events.push(event));
            match (action, event) {
                (WaitAction::ReadFinalizedHash, WaitEvent::FinalizedHash(hash)) => {
                    &&& next matches Step::Continue(_, WaitAction::QueryAuraApi { at })
                    &&& at == hash
                },
                (WaitAction::QueryAuraApi { .. }, WaitEvent::AuraApi(Ok(true))) => {
                    next matches Step::Return(true)
                },
                (WaitAction::QueryAuraApi { .. }, WaitEvent::AuraApi(_)) => {
                    &&& next matches Step::Continue(_, following)
                    &&& following is Subscribe || following is AwaitNotification
                },
                (WaitAction::Subscribe, WaitEvent::Subscribed) => {
                    next matches Step::Continue(_, WaitAction::AwaitNotification)
                },
                (WaitAction::AwaitNotification, WaitEvent::Notification(Some(hash))) => {
                    &&& next matches Step::Continue(_, WaitAction::QueryAuraApi { at })
                    &&& at == hash
                },
                (WaitAction::AwaitNotification, WaitEvent::Notification(None)) => {
                    next matches Step::Return(false)
                },
                _ => next == aura::wait_after(events),
            }
        },
{
    lemma_pending_is_asked_for(events);
    assert(events.push(event).drop_last() =~= events);
}

/// While a wait goes on, it asks for what its state is waiting for.
proof fn lemma_pending_is_asked_for<H, E>(events: Seq<WaitEvent<H, E>>)
    ensures
        aura::wait_after(events) matches Step::Continue(wait, action) ==> action == wait.pending(),
    decreases events.len(),
{
    if events.len() > 0 {
        lemma_pending_is_asked_for(events.drop_last());
    }
}

/// A wait subscribes once. Over reports that each answer what was asked for, it first reads which
/// block was finalized last, then asks about that block, then subscribes; from then on it awaits a
/// notification and asks about the block that it names, in turn, and never subscribes again.
pub proof fn lemma_subscribes_once<H, E>(events: Seq<WaitEvent<H, E>>)
    requires
        aura::each_answers(events),
    ensures
        aura::wait_after(events) matches Step::Continue(_, action) ==> match action {
            WaitAction::ReadFinalizedHash => events.len() == 0,
            WaitAction::QueryAuraApi { at } => {
                ||| events.len() == 1 && events[0] == WaitEvent::<H, E>::FinalizedHash(at)
                ||| events.len() >= 4 && events.len() % 2 == 0 && events.last() == WaitEvent::<
                    H,
                    E,
                >::Notification(Some(at))
            },
            WaitAction::Subscribe => events.len() == 2,
            WaitAction::AwaitNotification => events.len() >= 3 && events.len() % 2 == 1,
        },
    decreases events.len(),
{
    lemma_turns(events);
}

/// Where a wait stands by the number of reports that it has had.
proof fn lemma_turns<H, E>(events: Seq<WaitEvent<H, E>>)
    requires
        aura::each_answers(events),
    ensures
        aura::wait_after(events) matches Step::Continue(wait, action) ==> {
            &&& action == wait.pending()
            &&& match wait {
                WaitForAura::FinalizedHash => events.len() == 0,
                WaitForAura::FinalizedApi { at } => events.len() == 1 && events[0] == WaitEvent::<
                    H,
                    E,
                >::FinalizedHash(at),
                WaitForAura::Subscription => events.len() == 2,
                WaitForAura::Notification => events.len() >= 3 && events.len() % 2 == 1,
                WaitForAura::NotifiedApi { at } => events.len() >= 4 && events.len() % 2 == 0
                    && events.last() == WaitEvent::<H, E>::Notification(Some(at)),
            }
        },
    decreases events.len(),
{
    if events.len() > 0 {
        lemma_turns(events.drop_last());
        if events.len() == 1 {
            assert(events[0] == events.last());
        }
    }
}

/// Once it has subscribed, a wait never subscribes again nor starts over, whatever comes: it only
/// awaits notifications and asks about the blocks that they name.
pub proof fn lemma_never_subscribes_again<H, E>(
    events: Seq<WaitEvent<H, E>>,
    more: Seq<WaitEvent<H, E>>,
)
    requires
        aura::wait_after(events) matches Step::Continue(_, action) && action is Subscribe,
    ensures
        aura::wait_after(events.push(WaitEvent::Subscribed) + more) matches Step::Continue(
            _,
            action,
        ) ==> action is AwaitNotification || action is QueryAuraApi,
{
    lemma_listens_once_subscribed(events, more);
}

/// Once it has subscribed, a wait listens.
proof fn lemma_listens_once_subscribed<H, E>(
    events: Seq<WaitEvent<H, E>>,
    more: Seq<WaitEvent<H, E>>,
)
    requires
        aura::wait_after(events) matches Step::Continue(_, action) && action is Subscribe,
    ensures
        aura::wait_after(events.push(WaitEvent::Subscribed) + more) matches Step::Continue(
            wait,
            action,
        ) ==> action == wait.pending() && (wait is Notification || wait is NotifiedApi),
    decreases more.len(),
{
    let subscribed = events.push(WaitEvent::Subscribed);
    if more.len() == 0 {
        assert(subscribed + more =~= subscribed);
        assert(subscribed.drop_last() =~= events);
        lemma_pending_is_asked_for(events);
    } else {
        lemma_listens_once_subscribed(events, more.drop_last());
        assert((subscribed + more).drop_last() =~= subscribed + more.drop_last());
        assert((subscribed + more).last() == more.last());
    }
}

/// A wait says that Aura is there if and only if the last report, which it asked for, is that a
/// query found it; it says that Aura is not if and only if the notifications ended. Until then no
/// query found Aura, and the notifications went on.
pub proof fn lemma_found_if_and_only_if_reported<H, E>(events: Seq<WaitEvent<H, E>>)
    requires
        aura::each_answers(events),
    ensures
        aura::wait_after(events) matches Step::Return(true) <==> events.len() > 0
            && events.last() matches WaitEvent::AuraApi(Ok(true)),
        aura::wait_after(events) matches Step::Return(false) <==> events.len() > 0
            && events.last() matches WaitEvent::Notification(None),
        forall|i: int|
            0 <= i < events.len() - 1 ==> !(#[trigger] events[i] matches WaitEvent::AuraApi(
                Ok(true),
            )) && !(events[i] matches WaitEvent::Notification(None)),
    decreases events.len(),
{
    if events.len() > 0 {
        let before = events.drop_last();
        lemma_found_if_and_only_if_reported(before);
        assert forall|i: int| 0 <= i < events.len() - 1 implies !(
        #[trigger] events[i] matches WaitEvent::AuraApi(Ok(true))) && !(
        events[i] matches WaitEvent::Notification(None)) by {
            assert(events[i] == before[i]);
        }
    }
}

/// What a task of a collator does with each report. It does its own work and no other, from the
/// query that finds Aura until the work ends. Waiting in vain, it ends without. Until then it
/// waits, and what it waits for is what the wait for Aura asks for.
pub proof fn lemma_collator_by_report<H: Copy, E>(
    collator: CollatorTask<H>,
    action: CollatorAction<H>,
    event: CollatorEvent<H, E>,
    next: Step<CollatorTask<H>, CollatorAction<H>, ()>,
)
    requires
        call_ensures(CollatorTask::<H>::action, (&collator,), action),
        call_ensures(CollatorTask::<H>::step::<E>, (collator, event), next),
    ensures
        next matches Step::Continue(state, _) ==> state.task == collator.task,
        match (action, event) {
            (CollatorAction::Run { task }, CollatorEvent::Ended) => {
                task == collator.task && next is Return
            },
            (CollatorAction::Run { task }, CollatorEvent::Waited(_)) => {
                &&& task == collator.task
                &&& next matches Step::Continue(same, again)
                &&& same == collator
                &&& again == action
            },
            (CollatorAction::Wait(_), CollatorEvent::Ended) => {
                &&& next matches Step::Continue(same, again)
                &&& same == collator
                &&& again == action
            },
            (
                CollatorAction::Wait(WaitAction::QueryAuraApi { .. }),
                CollatorEvent::Waited(WaitEvent::AuraApi(Ok(true))),
            ) => {
                &&& next matches Step::Continue(_, CollatorAction::Run { task })
                &&& task == collator.task
            },
            (
                CollatorAction::Wait(WaitAction::AwaitNotification),
                CollatorEvent::Waited(WaitEvent::Notification(None)),
            ) => next is Return,
            (
                CollatorAction::Wait(WaitAction::ReadFinalizedHash),
                CollatorEvent::Waited(WaitEvent::FinalizedHash(hash)),
            ) => {
                &&& next matches Step::Continue(
                    _,
                    CollatorAction::Wait(WaitAction::QueryAuraApi { at }),
                )
                &&& at == hash
            },
            (
                CollatorAction::Wait(WaitAction::AwaitNotification),
                CollatorEvent::Waited(WaitEvent::Notification(Some(hash))),
            ) => {
                &&& next matches Step::Continue(
                    _,
                    CollatorAction::Wait(WaitAction::QueryAuraApi { at }),
                )
                &&& at == hash
            },
            (
                CollatorAction::Wait(WaitAction::Subscribe),
                CollatorEvent::Waited(WaitEvent::Subscribed),
            ) => next matches Step::Continue(
                _,
                CollatorAction::Wait(WaitAction::AwaitNotification),
            ),
            (
                CollatorAction::Wait(WaitAction::QueryAuraApi { .. }),
                CollatorEvent::Waited(WaitEvent::AuraApi(_)),
            ) => {
                &&& next matches Step::Continue(_, CollatorAction::Wait(following))
                &&& following is Subscribe || following is AwaitNotification
            },
            (CollatorAction::Wait(_), CollatorEvent::Waited(_)) => {
                &&& next matches Step::Continue(same, again)
                &&& same == collator
                &&& again == action
            },
        },
{
}

/// A task of a collator begins with the wait, and as the task that it is.
pub proof fn lemma_collator_begins_with_wait<H: Copy>(task: Task, collator: CollatorTask<H>)
    requires
        call_ensures(CollatorTask::<H>::begin, (task,), collator),
    ensures
        collator.task == task,
        collator.phase == CollatorPhase::<H>::Waiting(WaitForAura::FinalizedHash),
{
}

/// A task of a collator that is asked to do its work, whatever came, has been told that the API is
/// there, right before or earlier; and the work is its own.
pub proof fn lemma_works_only_after_aura<H, E>(task: Task, events: Seq<CollatorEvent<H, E>>)
    ensures
        aura::collator_after(task, events) matches Step::Continue(_, CollatorAction::Run {
            task: own,
        }) ==> own == task && exists|i: int|
            0 <= i < events.len() && (#[trigger] events[i] matches CollatorEvent::Waited(
                WaitEvent::AuraApi(Ok(true)),
            )),
{
    aura::lemma_no_work_before_aura(task, events);
    if let Step::Continue(_, CollatorAction::Run { .. }) = aura::collator_after(task, events) {
        let i = choose|i: int|
            0 <= i < events.len() && (#[trigger] events[i] matches CollatorEvent::Waited(event)
                && event.finds_aura());
        assert(events[i] matches CollatorEvent::Waited(WaitEvent::AuraApi(Ok(true))));
    }
}

} // verus!
