//! Slot and timestamp of the inherent data that accompanies an Aura block.

use vstd::prelude::*;

verus! {

/// The inherent data of an Aura block: the slot number and the time it was taken from, in
/// milliseconds since the UNIX epoch.
#[derive(Debug, Clone, Copy, PartialEq, Eq, Structural)]
pub struct SlotAndTimestamp {
    pub slot: u64,
    pub timestamp: u64,
}

/// The system time, in milliseconds since the UNIX epoch.
///
/// Calls `sp_timestamp::InherentDataProvider::from_system_time` and takes its timestamp out.
/// Nothing is claimed of the value: it is whatever the clock of the machine shows. The call panics
/// where that clock is set before the epoch, which no argument of it could rule out.
#[verifier::external_body]
fn system_timestamp() -> (timestamp: u64)
{
    sp_timestamp::InherentDataProvider::from_system_time().timestamp().as_millis()
}

/// The number of whole slots of `slot_duration` milliseconds that fit before `timestamp`.
///
/// Calls `sp_consensus_aura::inherents::InherentDataProvider::from_timestamp_and_slot_duration`
/// and takes its slot out. The call divides the timestamp by the slot duration, rounding down;
/// it panics on a slot duration of zero, which is left out here.
#[verifier::external_body]
fn slot_of(timestamp: u64, slot_duration: u64) -> (slot: u64)
    requires
        slot_duration > 0,
    ensures
        slot == timestamp / slot_duration,
{
    let provider =
        sp_consensus_aura::inherents::InherentDataProvider::from_timestamp_and_slot_duration(
            sp_timestamp::Timestamp::new(timestamp),
            sp_consensus_aura::SlotDuration::from_millis(slot_duration),
        );
    u64::from(*provider)
}

/// The inherent data of a block authored at `timestamp` on a chain whose slots last
/// `slot_duration` milliseconds.
pub fn inherent_data_at(timestamp: u64, slot_duration: u64) -> (data: SlotAndTimestamp)
    requires
        slot_duration > 0,
    ensures
        data == (SlotAndTimestamp { slot: (timestamp / slot_duration), timestamp }),
{
    SlotAndTimestamp { slot: slot_of(timestamp, slot_duration), timestamp }
}

/// Whether a timestamp is one that a reading of the system time has given. Nothing but such a
/// reading can establish this.
pub closed spec fn clock_shows(timestamp: u64) -> bool {
    call_ensures(system_timestamp, (), timestamp)
}

/// The inherent data of a block authored now on a chain whose slots last `slot_duration`
/// milliseconds. The timestamp is read off the clock; the slot is always the one that holds it.
pub fn create_inherent_data_providers(slot_duration: u64) -> (data: SlotAndTimestamp)
    requires
        slot_duration > 0,
    ensures
        clock_shows(data.timestamp),
        data.slot == data.timestamp / slot_duration,
{
    inherent_data_at(system_timestamp(), slot_duration)
}

/// Like [`create_inherent_data_providers`], for a chain whose slot duration was asked of the
/// runtime at the parent block. A failed query is handed back as it is.
pub fn create_inherent_data_providers_at<E>(slot_duration: Result<u64, E>) -> (data: Result<
    SlotAndTimestamp,
    E,
>)
    requires
        slot_duration matches Ok(duration) ==> duration > 0,
    ensures
        match slot_duration {
            Ok(duration) => {
                &&& data matches Ok(d)
                &&& clock_shows(d.timestamp)
                &&& d.slot == d.timestamp / duration
            },
            Err(error) => data == Err::<SlotAndTimestamp, E>(error),
        },
{
    match slot_duration {
        Ok(duration) => Ok(create_inherent_data_providers(duration)),
        Err(error) => Err(error),
    }
}

/// The error of a block proposal for which no parachain inherent could be created.
pub open spec fn parachain_inherent_error() -> Seq<char> {
    "Failed to create parachain inherent"@
}

/// The parachain inherent of a proposal, once its creation has been tried.
pub fn require_parachain_inherent<T>(created: Option<T>) -> (inherent: Result<T, String>)
    ensures
        match created {
            Some(data) => inherent == Ok::<T, String>(data),
            None => inherent matches Err(error) && error@ == parachain_inherent_error(),
        },
{
    match created {
        Some(data) => Ok(data),
        None => Err("Failed to create parachain inherent".to_string()),
    }
}

/// A block's timestamp lies in its slot: not before the slot begins, and before the next begins.
pub proof fn lemma_timestamp_within_slot(timestamp: u64, slot_duration: u64)
    requires
        slot_duration > 0,
    ensures
        (timestamp / slot_duration) * slot_duration <= timestamp,
        timestamp < (timestamp / slot_duration + 1) * slot_duration,
{
    let slot = timestamp as int / slot_duration as int;
    vstd::arithmetic::div_mod::lemma_fundamental_div_mod(timestamp as int, slot_duration as int);
    assert(slot_duration * slot == slot * slot_duration) by (nonlinear_arith);
    assert((slot + 1) * slot_duration == slot * slot_duration + slot_duration) by (nonlinear_arith);
}

/// Slots never go back: of two timestamps the later one is in the same slot or a later one.
pub proof fn lemma_slots_are_monotone(earlier: u64, later: u64, slot_duration: u64)
    requires
        slot_duration > 0,
        earlier <= later,
    ensures
        earlier / slot_duration <= later / slot_duration,
{
    vstd::arithmetic::div_mod::lemma_div_is_ordered(
        earlier as int,
        later as int,
        slot_duration as int,
    );
}

/// A time that the clock shows is one that a reading of the system time has returned.
proof fn lemma_clock_was_read(timestamp: u64)
    requires
        clock_shows(timestamp),
    ensures
        call_ensures(system_timestamp, (), timestamp),
{
}

/// The inherent data of a block holds the time that it was made for, and the slot which that time
/// lies in.
pub proof fn lemma_inherent_data_lies_in_slot(
    timestamp: u64,
    slot_duration: u64,
    data: SlotAndTimestamp,
)
    requires
        slot_duration > 0,
        call_ensures(inherent_data_at, (timestamp, slot_duration), data),
    ensures
        data.timestamp == timestamp,
        data.slot * slot_duration <= timestamp,
        timestamp < (data.slot + 1) * slot_duration,
{
    lemma_timestamp_within_slot(timestamp, slot_duration);
}

/// The inherent data of a block that is made now holds a time that the clock has shown, and the
/// slot which that time lies in.
pub proof fn lemma_inherent_data_of_now(slot_duration: u64, data: SlotAndTimestamp)
    requires
        slot_duration > 0,
        call_ensures(create_inherent_data_providers, (slot_duration,), data),
    ensures
        clock_shows(data.timestamp),
        data.slot * slot_duration <= data.timestamp,
        data.timestamp < (data.slot + 1) * slot_duration,
{
    lemma_timestamp_within_slot(data.timestamp, slot_duration);
}

/// Inherent data with a slot duration that was asked for is there if and only if the answer is. Its
/// slot is the one that its time lies in; a failure is handed back as it is.
pub proof fn lemma_inherent_data_by_answer<E>(
    answer: Result<u64, E>,
    data: Result<SlotAndTimestamp, E>,
)
    requires
        answer matches Ok(duration) ==> duration > 0,
        call_ensures(create_inherent_data_providers_at::<E>, (answer,), data),
    ensures
        match (answer, data) {
            (Ok(duration), Ok(made)) => {
                &&& clock_shows(made.timestamp)
                &&& made.slot * duration <= made.timestamp
                &&& made.timestamp < (made.slot + 1) * duration
            },
            (Err(error), Err(returned)) => returned == error,
            _ => false,
        },
{
    if let (Ok(duration), Ok(made)) = (answer, data) {
        lemma_timestamp_within_slot(made.timestamp, duration);
    }
}

/// A proposal has the parachain inherent that was created for it, or fails in so many words.
pub proof fn lemma_proposal_needs_parachain_inherent<T>(
    created: Option<T>,
    inherent: Result<T, String>,
)
    requires
        call_ensures(require_parachain_inherent::<T>, (created,), inherent),
    ensures
        match (created, inherent) {
            (Some(data), Ok(returned)) => returned == data,
            (None, Err(error)) => error@ == "Failed to create parachain inherent"@,
            _ => false,
        },
{
}

} // verus!
