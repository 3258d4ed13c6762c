//! Many reads of one key at once.
//!
//! A [`World`] is one entry on the server and the reads that go on against
//! it. The reads take turns in any order; each turn does what one read asks
//! for and hands it what came of it. [`theorem_single_flight`] says that
//! however the turns fall, the loader runs at most once among all the reads
//! and every read ends with the value that this one run brought.

use crate::entry::{lemma_decimal_is_not_locked, EntryView};
use crate::fetch::{ActionView, EventView, FetchView, Loaded, OutcomeView, StateView, StepView};
use crate::laws::report;
use crate::script::ScriptName;
use vstd::prelude::*;

verus! {

/// One of the reads of a world.
pub struct Reader {
    /// How far the read has come. Once it is over, this is its last state.
    pub fetch: FetchView,
    /// How the read ended, once it is over.
    pub outcome: Option<OutcomeView>,
    /// How often its loader has run.
    pub loads: nat,
}

impl Reader {
    /// Whether the read is over.
    pub open spec fn done(self) -> bool {
        self.outcome is Some
    }

    /// Whether the read holds the lock and is at work on the entry: its
    /// loader runs, or what the loader brought is on its way to the server.
    pub open spec fn at_work(self) -> bool {
        !self.done() && (self.fetch.state is Loading || self.fetch.state is Encoding
            || self.fetch.state is Storing)
    }

    /// Whether the read has begun and nothing more: it is about to run the
    /// read script for the first time.
    pub open spec fn fresh(self) -> bool {
        &&& self.fetch.state is Acquiring
        &&& self.outcome is None
        &&& self.loads == 0
        &&& self.sound()
    }

    /// Whether the read stores for a second or more what its loader brings,
    /// be it a value or nothing. Else its store script would delete the
    /// entry, and the next read would load again.
    pub open spec fn sound(self) -> bool {
        self.fetch.well_formed() && self.fetch.expire >= 1 && self.fetch.empty_expire >= 1
    }

    /// Whether the read was handed the value of the entry: its bytes are
    /// being deserialized, or the read is over with what they hold.
    pub open spec fn served(self) -> bool {
        self.fetch.state is Decoding
    }

    /// The bytes that the read was handed, once it was served.
    pub open spec fn read(self) -> Seq<u8> {
        self.fetch.state->Decoding_bytes
    }

    /// The bytes that the read stored, once it is over and has loaded.
    pub open spec fn stored(self) -> Seq<u8> {
        self.fetch.state->Storing_bytes
    }
}

/// One turn: a read and what came of its action.
pub struct Move {
    pub reader: int,
    pub event: EventView,
}

/// One entry and the reads that go on against it.
pub struct World {
    pub entry: EntryView,
    pub readers: Seq<Reader>,
}

impl World {
    /// Whether `i` is one of the reads.
    pub open spec fn has(self, i: int) -> bool {
        0 <= i < self.readers.len()
    }

    /// Whether every read has begun and nothing more.
    pub open spec fn initial(self) -> bool {
        forall|i: int| self.has(i) ==> (#[trigger] self.readers[i]).fresh()
    }

    /// Whether no read that is at work has a lock which had run out when
    /// `fetch` began. This is what it means for the loaders to be faster
    /// than the lock is long: a read that begins later than the deadline of
    /// a lock does not find the lock's owner still at work.
    pub open spec fn in_time(self, fetch: FetchView) -> bool {
        forall|j: int|
            self.has(j) && (#[trigger] self.readers[j]).at_work() ==> fetch.now
                <= self.readers[j].fetch.deadline
    }

    /// Whether a turn can be taken: the read is not over, and the event is
    /// what truly came of its action. Scripts run on the entry and answer
    /// what it holds; loaders, the serializer and the deserializer do not
    /// fail; a read script is only run in time.
    pub open spec fn allows(self, turn: Move) -> bool {
        &&& self.has(turn.reader)
        &&& !self.readers[turn.reader].done()
        &&& match self.readers[turn.reader].fetch.action() {
            ActionView::Call(call) => {
                &&& turn.event == report(self.entry, call)
                &&& call.name == ScriptName::GetScript ==> self.in_time(
                    self.readers[turn.reader].fetch,
                )
            },
            ActionView::Sleep(_) => turn.event == EventView::Woke,
            ActionView::Decode(_) => turn.event == EventView::Decoded(Ok(())),
            ActionView::Load => turn.event == EventView::Loaded(Loaded::Present) || turn.event
                == EventView::Loaded(Loaded::Absent),
            ActionView::Encode => turn.event is Encoded && turn.event->Encoded_0 is Ok,
            ActionView::Delete(_) => turn.event == EventView::Deleted,
        }
    }

    /// The world after a turn: the action has had its effect on the entry,
    /// and the read has taken the event.
    pub open spec fn after(self, turn: Move) -> World {
        let reader = self.readers[turn.reader];
        let action = reader.fetch.action();
        let entry = match action {
            ActionView::Call(call) => self.entry.after(call),
            ActionView::Delete(_) => EntryView::absent(),
            _ => self.entry,
        };
        let loads = if action is Load {
            reader.loads + 1
        } else {
            reader.loads
        };
        let next = match reader.fetch.step(turn.event) {
            StepView::Next(fetch) => Reader { fetch, outcome: None, loads },
            StepView::Done(outcome) => Reader { fetch: reader.fetch, outcome: Some(outcome), loads },
        };
        World { entry, readers: self.readers.update(turn.reader, next) }
    }

    /// Whether the turns can be taken one after the other.
    pub open spec fn allows_all(self, turns: Seq<Move>) -> bool
        decreases turns.len(),
    {
        if turns.len() == 0 {
            true
        } else {
            self.allows(turns[0]) && self.after(turns[0]).allows_all(turns.drop_first())
        }
    }

    /// The world after the turns were taken one after the other.
    pub open spec fn after_all(self, turns: Seq<Move>) -> World
        decreases turns.len(),
    {
        if turns.len() == 0 {
            self
        } else {
            self.after(turns[0]).after_all(turns.drop_first())
        }
    }

    /// Whether the entry holds these bytes as its value and no lock.
    pub open spec fn committed(self, bytes: Seq<u8>) -> bool {
        self.entry.value == Some(bytes) && self.entry.lock_until is None
    }

    /// What holds of one read in every world that the turns can reach.
    pub open spec fn reader_inv(self, i: int) -> bool {
        let reader = self.readers[i];
        &&& reader.sound()
        &&& match reader.outcome {
            Some(OutcomeView::Hit) => reader.served(),
            Some(OutcomeView::Loaded) => reader.fetch.state is Storing && self.committed(
                reader.stored(),
            ) && reader.loads == 1,
            Some(OutcomeView::Failed(_)) => false,
            None => match reader.fetch.state {
                StateView::Acquiring | StateView::Waiting | StateView::Loading
                | StateView::Decoding { .. } => reader.loads == 0,
                StateView::Encoding { .. } | StateView::Storing { .. } => reader.loads == 1,
                _ => false,
            },
        }
        &&& reader.served() ==> self.committed(reader.read()) && reader.loads == 0
        &&& reader.at_work() ==> self.entry.lock_owner == Some(reader.fetch.owner)
            && self.entry.lock_until == Some(reader.fetch.deadline)
    }

    /// Whether the read leads: it is at work, or it is the one that loaded.
    pub open spec fn leads(self, i: int) -> bool {
        self.readers[i].at_work() || self.readers[i].outcome == Some(OutcomeView::Loaded)
    }

    /// What holds in every world that the turns can reach from an initial
    /// one. At most one read leads, and while it is at work no read is over
    /// or was served.
    pub open spec fn inv(self) -> bool {
        &&& forall|i: int| self.has(i) ==> #[trigger] self.reader_inv(i)
        &&& forall|i: int, j: int|
            self.has(i) && self.has(j) && #[trigger] self.leads(i) && #[trigger] self.leads(j)
                ==> i == j
        &&& forall|i: int, j: int|
            self.has(i) && self.has(j) && (#[trigger] self.readers[i]).at_work() ==> !(
            #[trigger] self.readers[j]).done() && !self.readers[j].served()
    }

    /// Whether some read has loaded and stored what it loaded.
    pub open spec fn has_loaded(self) -> bool {
        exists|i: int| self.has(i) && #[trigger] self.leads(i) && self.readers[i].done()
    }
}

/// An initial world is as every reachable world is.
proof fn lemma_initial_inv(world: World)
    requires
        world.initial(),
    ensures
        world.inv(),
{
    assert forall|i: int| world.has(i) implies #[trigger] world.reader_inv(i) by {
        assert(world.readers[i].fresh());
    }
}

/// A turn leaves the world as every reachable world is.
proof fn lemma_turn_keeps_inv(world: World, turn: Move)
    requires
        world.inv(),
        world.allows(turn),
    ensures
        world.after(turn).inv(),
        world.after(turn).readers.len() == world.readers.len(),
        world.has_loaded() ==> world.after(turn).has_loaded(),
        world.after(turn).entry.value is Some && world.entry.value is None ==> world.after(
            turn,
        ).has_loaded(),
{
    let m = turn.reader;
    let fetch = world.readers[m].fetch;
    let next = world.after(turn);
    assert(world.reader_inv(m));
    if world.entry.lock_until is Some {
        lemma_decimal_is_not_locked(world.entry.lock_until.unwrap() as nat);
    }
    assert forall|i: int| next.has(i) implies #[trigger] next.reader_inv(i) by {
        assert(world.reader_inv(i));
        if i != m {
            assert(world.leads(m) ==> !world.leads(i));
        }
    }
    assert forall|i: int, j: int|
        next.has(i) && next.has(j) && #[trigger] next.leads(i) && #[trigger] next.leads(
            j,
        ) implies i == j by {
        assert(world.reader_inv(i));
        assert(world.reader_inv(j));
        assert(world.leads(i) && world.leads(j) ==> i == j);
    }
    assert forall|i: int, j: int|
        next.has(i) && next.has(j) && (#[trigger] next.readers[i]).at_work() implies !(
    #[trigger] next.readers[j]).done() && !next.readers[j].served() by {
        assert(world.reader_inv(i));
        assert(world.reader_inv(j));
        assert(world.leads(i) && world.leads(j) ==> i == j);
    }
    if world.has_loaded() {
        let k = choose|k: int| world.has(k) && #[trigger] world.leads(k) && world.readers[k].done();
        assert(next.has(k) && next.leads(k) && next.readers[k].done());
    }
    if next.entry.value is Some && world.entry.value is None {
        assert(next.has(m) && next.leads(m) && next.readers[m].done());
    }
}

/// Single flight.
///
/// Take any number of reads of one key that have just begun, each of which
/// keeps what it loads for a second or more, and let them take turns in any
/// order, against an entry that holds anything at all. Let scripts, loaders,
/// the serializer and the deserializer do their work without failing, let
/// the entry not die of old age meanwhile, and let every loader be faster
/// than the lock is long ([`World::in_time`]). Then, whenever one looks:
///
/// - at most one read has run its loader, and it has run it once;
/// - no read has failed;
/// - every read that is over has loaded itself or was handed the bytes that
///   the entry holds, and these are the bytes that the loading read stored;
///   its result is what the loader brought or what these bytes hold;
/// - where the entry held no value at the start and some read is over, a
///   read has loaded: the loader has run exactly once.
pub proof fn theorem_single_flight(world: World, turns: Seq<Move>)
    requires
        world.initial(),
        world.allows_all(turns),
    ensures
        ({
            let end = world.after_all(turns);
            &&& end.readers.len() == world.readers.len()
            &&& forall|i: int| end.has(i) ==> (#[trigger] end.readers[i]).loads <= 1
            &&& forall|i: int, j: int|
                end.has(i) && end.has(j) && i != j ==> (#[trigger] end.readers[i]).loads == 0 || (
                #[trigger] end.readers[j]).loads == 0
            &&& forall|i: int|
                end.has(i) ==> match (#[trigger] end.readers[i]).outcome {
                    Some(OutcomeView::Hit) => end.entry.value == Some(end.readers[i].read()),
                    Some(OutcomeView::Loaded) => end.entry.value == Some(end.readers[i].stored()),
                    Some(OutcomeView::Failed(_)) => false,
                    None => true,
                }
            &&& forall|i: int|
                world.entry.value is None && end.has(i) && (#[trigger] end.readers[i]).done()
                    ==> exists|k: int| end.has(k) && (#[trigger] end.readers[k]).loads == 1
        }),
{
    lemma_initial_inv(world);
    lemma_reachable(world, turns, world.entry.value is None);
    let end = world.after_all(turns);
    assert forall|i: int| end.has(i) implies end.readers[i].loads <= 1 && match (
    #[trigger] end.readers[i]).outcome {
        Some(OutcomeView::Hit) => end.entry.value == Some(end.readers[i].read()),
        Some(OutcomeView::Loaded) => end.entry.value == Some(end.readers[i].stored()),
        Some(OutcomeView::Failed(_)) => false,
        None => true,
    } by {
        assert(end.reader_inv(i));
    }
    assert forall|i: int, j: int| end.has(i) && end.has(j) && i != j implies (
    #[trigger] end.readers[i]).loads == 0 || (#[trigger] end.readers[j]).loads == 0 by {
        assert(end.reader_inv(i));
        assert(end.reader_inv(j));
        assert(end.leads(i) && end.leads(j) ==> i == j);
    }
    assert forall|i: int|
        world.entry.value is None && end.has(i) && (#[trigger] end.readers[i]).done() implies exists|
        k: int,
    | end.has(k) && (#[trigger] end.readers[k]).loads == 1 by {
        assert(end.reader_inv(i));
        let k = choose|k: int| end.has(k) && #[trigger] end.leads(k) && end.readers[k].done();
        assert(end.reader_inv(k));
    }
}

/// Every world that the turns reach is as [`World::inv`] says, and where the
/// entry came to hold a value that it did not hold at first, a read has
/// loaded.
proof fn lemma_reachable(world: World, turns: Seq<Move>, empty: bool)
    requires
        world.inv(),
        world.allows_all(turns),
        empty ==> (world.entry.value is Some ==> world.has_loaded()),
    ensures
        world.after_all(turns).inv(),
        world.after_all(turns).readers.len() == world.readers.len(),
        empty ==> (world.after_all(turns).entry.value is Some ==> world.after_all(
            turns,
        ).has_loaded()),
    decreases turns.len(),
{
    if turns.len() > 0 {
        lemma_turn_keeps_inv(world, turns[0]);
        lemma_reachable(world.after(turns[0]), turns.drop_first(), empty);
    }
}

} // verus!
