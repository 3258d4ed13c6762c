//! What the protocol guarantees, proved of the reads and of the scripts as
//! [`crate::entry`] describes them.

use crate::client::Client;
use crate::entry::{lemma_decimal_is_not_locked, EntryView};
use crate::executor::{CommandView, Reply, ScriptCallView};
use crate::fetch::{ActionView, EventView, FetchView, Loaded, OutcomeView, StateView, StepView};
use crate::script::ScriptName;
use vstd::prelude::*;

verus! {

/// The event by which a read learns that one of its calls ran on `entry`.
pub open spec fn report(entry: EntryView, call: ScriptCallView) -> EventView {
    match call.name {
        ScriptName::GetScript => EventView::Read(Ok(entry.get_reply(call.args[0]->Integer_0))),
        ScriptName::SetScript => EventView::Stored(Ok(())),
        _ => EventView::Unlocked,
    }
}

/// Every call that a read or a client makes has the arguments that its
/// script takes.
pub proof fn lemma_calls_fit<R>(
    fetch: FetchView,
    client: Client<R>,
    absent: bool,
    bytes: Seq<u8>,
)
    ensures
        EntryView::takes(fetch.read_call()),
        EntryView::takes(fetch.store_call(absent, bytes)),
        EntryView::takes(fetch.unlock_call()),
        EntryView::takes(client.delete_call(fetch.key)),
{
}

/// What the read script answers never has an unexpected shape: where it
/// reports no lock, it hands out a value. So a read fails for the shape of a
/// reply only where the server did not run the script as it stands.
pub proof fn lemma_read_reply_is_well_shaped(fetch: FetchView, entry: EntryView)
    ensures
        !fetch.misshapen(report(entry, fetch.read_call())),
{
}

/// A script call sends at most three commands. Unless the server does not
/// know the script, the first reply ends the call. Where it does not know
/// it, the source is registered, the script is called once more with the
/// same digest, key and arguments, and whatever comes back then ends the
/// call, also where registering failed.
pub proof fn lemma_call_ends_within_three<R>(
    call: ScriptCallView,
    first: Reply<R>,
    second: Reply<R>,
    third: Reply<R>,
)
    requires
        call.stage is First,
    ensures
        call.command() is EvalSha,
        !(first is NoScript) ==> call.ends_with(first),
        first is NoScript ==> ({
            let loading = ScriptCallView { stage: call.next_stage(), ..call };
            let retry = ScriptCallView { stage: loading.next_stage(), ..loading };
            &&& !call.ends_with(first)
            &&& loading.command() == (CommandView::ScriptLoad { source: call.name.spec_source()@ })
            &&& !loading.ends_with(second)
            &&& retry.command() == call.command()
            &&& retry.ends_with(third)
        }),
{
}

/// The store script and the unlock script of a read that does not own the
/// lock change nothing, whatever the entry holds.
pub proof fn lemma_stale_owner_changes_nothing(
    fetch: FetchView,
    entry: EntryView,
    absent: bool,
    bytes: Seq<u8>,
)
    requires
        entry.lock_owner != Some(fetch.owner),
    ensures
        entry.after(fetch.store_call(absent, bytes)) == entry,
        entry.after(fetch.unlock_call()) == entry,
{
}

/// A read that does not own the lock still ends with what its loader
/// brought, once its store script has run.
pub proof fn lemma_stale_owner_still_returns(fetch: FetchView, entry: EntryView)
    requires
        fetch.state is Storing,
    ensures
        fetch.action() is Call,
        fetch.step(report(entry, fetch.action()->Call_0)) == StepView::Done(OutcomeView::Loaded),
{
}

/// A lock that has run out is taken by the next read that begins after its
/// deadline: the script makes the read the owner, with a deadline of its
/// own, and the read goes on to run its loader.
pub proof fn lemma_lapsed_lock_is_taken(fetch: FetchView, entry: EntryView)
    requires
        fetch.state is Acquiring,
        entry.lock_until is Some,
        entry.lock_until.unwrap() < fetch.now,
    ensures
        fetch.action() == ActionView::Call(fetch.read_call()),
        entry.after(fetch.read_call()).lock_owner == Some(fetch.owner),
        entry.after(fetch.read_call()).lock_until == Some(fetch.deadline),
        entry.after(fetch.read_call()).value == entry.value,
        fetch.step(report(entry, fetch.read_call())) == StepView::Next(
            fetch.with(StateView::Loading),
        ),
        fetch.with(StateView::Loading).action() == ActionView::Load,
{
}

/// A lock that has not run out at the time at which a read began is left
/// alone: the entry stays as it is and the read pauses before it asks again.
pub proof fn lemma_held_lock_is_respected(fetch: FetchView, entry: EntryView)
    requires
        fetch.state is Acquiring,
        entry.lock_until is Some,
        entry.lock_until.unwrap() >= fetch.now,
    ensures
        entry.after(fetch.read_call()) == entry,
        fetch.step(report(entry, fetch.read_call())) == StepView::Next(
            fetch.with(StateView::Waiting),
        ),
        fetch.with(StateView::Waiting).action() == ActionView::Sleep(fetch.lock_sleep),
        fetch.with(StateView::Waiting).step(EventView::Woke) == StepView::Next(fetch),
{
    lemma_decimal_is_not_locked(entry.lock_until.unwrap() as nat);
}

/// A key that the server does not hold is locked by the first read, which
/// goes on to run its loader.
pub proof fn lemma_absent_entry_is_loaded(fetch: FetchView)
    requires
        fetch.state is Acquiring,
    ensures
        EntryView::absent().after(fetch.read_call()) == (EntryView {
            value: None,
            lock_until: Some(fetch.deadline),
            lock_owner: Some(fetch.owner),
            ttl: None,
        }),
        fetch.step(report(EntryView::absent(), fetch.read_call())) == StepView::Next(
            fetch.with(StateView::Loading),
        ),
{
}

/// After a key was marked as deleted, the next read runs its loader, whether
/// or not the entry still holds its old value: the delete script leaves a
/// lock that has run out, which the read script gives to the read. This
/// holds of every read that begins after the first second of the epoch.
pub proof fn lemma_tag_delete_causes_reload<R>(
    client: Client<R>,
    entry: EntryView,
    fetch: FetchView,
)
    requires
        fetch.state is Acquiring,
        fetch.now > 0,
    ensures
        ({
            let marked = entry.after(client.delete_call(fetch.key));
            &&& (marked.is_absent() || (marked.lock_until == Some(0u64) && marked.lock_owner is None
                && marked.value == entry.value))
            &&& marked.after(fetch.read_call()).lock_owner == Some(fetch.owner)
            &&& fetch.step(report(marked, fetch.read_call())) == StepView::Next(
                fetch.with(StateView::Loading),
            )
        }),
        fetch.with(StateView::Loading).action() == ActionView::Load,
{
}

/// The loader runs at most once in a read. Once it has reported, no later
/// state of the read asks for it, and no event brings the read back to a
/// state that does.
pub proof fn lemma_loader_runs_once(fetch: FetchView, loaded: Loaded, event: EventView)
    ensures
        fetch.action() is Load ==> match fetch.step(EventView::Loaded(loaded)) {
            StepView::Next(next) => next.has_loaded(),
            StepView::Done(_) => true,
        },
        fetch.has_loaded() ==> !(fetch.action() is Load) && match fetch.step(event) {
            StepView::Next(next) => next.has_loaded(),
            StepView::Done(_) => true,
        },
{
}

/// What the owner of the lock stores is what every later read is handed, as
/// long as the entry lives: the store script puts the bytes in place of the
/// lock and gives the entry its time to live, and the read script then hands
/// out these bytes without taking a lock, so that no loader runs and the
/// read ends with what these very bytes are deserialized to.
pub proof fn lemma_stored_bytes_are_served(
    writer: FetchView,
    reader: FetchView,
    entry: EntryView,
)
    requires
        writer.well_formed(),
        writer.state is Storing,
        entry.lock_owner == Some(writer.owner),
        writer.store_expire(writer.state->Storing_absent) >= 1,
        reader.state is Acquiring,
    ensures
        writer.action() is Call,
        ({
            let bytes = writer.state->Storing_bytes;
            let stored = entry.after(writer.action()->Call_0);
            &&& stored == (EntryView {
                value: Some(bytes),
                lock_until: None,
                lock_owner: None,
                ttl: Some(writer.store_expire(writer.state->Storing_absent) as u64),
            })
            &&& stored.after(reader.read_call()) == stored
            &&& reader.step(report(stored, reader.read_call())) == StepView::Next(
                reader.with(StateView::Decoding { bytes }),
            )
            &&& reader.with(StateView::Decoding { bytes }).action() == ActionView::Decode(bytes)
            &&& reader.with(StateView::Decoding { bytes }).step(EventView::Decoded(Ok(())))
                == StepView::Done(OutcomeView::Hit)
        }),
{
}

/// A loader that brought nothing has its result stored for the expiry of
/// absent results, where that is a second or more.
pub proof fn lemma_absent_result_is_cached(fetch: FetchView, bytes: Seq<u8>)
    requires
        fetch.well_formed(),
        fetch.state is Loading,
        fetch.empty_expire >= 1,
    ensures
        ({
            let encoding = fetch.with(StateView::Encoding { absent: true });
            let storing = fetch.with(StateView::Storing { absent: true, bytes });
            &&& fetch.step(EventView::Loaded(Loaded::Absent)) == StepView::Next(encoding)
            &&& encoding.action() == ActionView::Encode
            &&& encoding.step(EventView::Encoded(Ok(bytes))) == StepView::Next(storing)
            &&& storing.action() == ActionView::Call(fetch.store_call(true, bytes))
            &&& fetch.store_call(true, bytes).args[2]->Integer_0 == fetch.empty_expire
        }),
{
}

/// A loader that brought nothing has the entry deleted where absent results
/// are cached for less than a second: the read asks for the key to be
/// deleted outright, its store script then finds no lock of its own and
/// changes nothing, and the next read finds no entry and runs its loader.
pub proof fn lemma_absent_result_is_deleted(fetch: FetchView, next: FetchView, bytes: Seq<u8>)
    requires
        fetch.state is Loading,
        fetch.empty_expire == 0,
        next.state is Acquiring,
    ensures
        ({
            let deleting = fetch.with(StateView::Deleting);
            let encoding = fetch.with(StateView::Encoding { absent: true });
            let storing = fetch.with(StateView::Storing { absent: true, bytes });
            &&& fetch.step(EventView::Loaded(Loaded::Absent)) == StepView::Next(deleting)
            &&& deleting.action() == ActionView::Delete(fetch.key)
            &&& deleting.step(EventView::Deleted) == StepView::Next(encoding)
            &&& encoding.step(EventView::Encoded(Ok(bytes))) == StepView::Next(storing)
            &&& storing.action() == ActionView::Call(fetch.store_call(true, bytes))
            &&& EntryView::absent().after(fetch.store_call(true, bytes)) == EntryView::absent()
            &&& storing.step(report(EntryView::absent(), fetch.store_call(true, bytes)))
                == StepView::Done(OutcomeView::Loaded)
            &&& next.step(report(EntryView::absent(), next.read_call())) == StepView::Next(
                next.with(StateView::Loading),
            )
        }),
{
}

/// A loader that failed has the lock given up: the unlock script leaves a
/// lock that has run out and has no owner, or no entry at all, and the read
/// ends with what the loader brought, its error.
pub proof fn lemma_failed_loader_gives_lock_up(fetch: FetchView, entry: EntryView)
    requires
        fetch.well_formed(),
        fetch.state is Loading,
        entry.lock_owner == Some(fetch.owner),
    ensures
        ({
            let unlocking = fetch.with(StateView::Unlocking);
            let freed = entry.after(fetch.unlock_call());
            &&& fetch.step(EventView::Loaded(Loaded::Failed)) == StepView::Next(unlocking)
            &&& unlocking.action() == ActionView::Call(fetch.unlock_call())
            &&& (freed.is_absent() || (freed.lock_until == Some(0u64) && freed.value
                == entry.value))
            &&& freed.lock_owner is None
            &&& unlocking.step(report(entry, fetch.unlock_call())) == StepView::Done(
                OutcomeView::Loaded,
            )
        }),
{
}

} // verus!
