//! The lock protocol of one read.
//!
//! A read first runs the read script. The script either hands out the value
//! of the entry, or tells that another caller is refreshing the entry, or
//! gives the lock to this caller. Without the lock the caller uses the value
//! or waits and asks again. With the lock it runs its loader, stores what
//! the loader brought and so frees the lock, or gives the lock up where the
//! loader failed.
//!
//! [`Fetch`] holds how far a read has come. [`Fetch::action`] says what has to
//! be done next, and [`Fetch::step`] takes what came of it.

use crate::duration::Duration;
use crate::error::{aborted, new_decode_error, new_encode_error, new_redis_error, CacheError};
use crate::executor::{arg_views, Arg, ArgView, ScriptCall, ScriptCallView, Stage};
use crate::options::Options;
use crate::script::ScriptName;
use crate::value::{Lock, Value, ValueView};
use vstd::prelude::*;

verus! {

/// How far a read has come: what it is waiting for.
#[derive(Debug, PartialEq, Eq)]
pub enum State {
    /// The cache is bypassed: the loader is running.
    Bypassing,
    /// The read script is running.
    Acquiring,
    /// Another caller holds the lock: the read pauses before it asks again.
    Waiting,
    /// The entry was read from the cache: these bytes of its value are being
    /// deserialized.
    Decoding { bytes: Vec<u8> },
    /// This read holds the lock: the loader is running.
    Loading,
    /// The loader brought nothing and nothing is to be cached: the entry is
    /// being deleted.
    Deleting,
    /// The loader's result is being serialized. `absent` tells whether the
    /// loader brought nothing.
    Encoding { absent: bool },
    /// The store script is running with these bytes.
    Storing { absent: bool, bytes: Vec<u8> },
    /// The loader failed: the unlock script is running.
    Unlocking,
}

/// The mathematical model of a [`State`].
pub enum StateView {
    Bypassing,
    Acquiring,
    Waiting,
    Decoding { bytes: Seq<u8> },
    Loading,
    Deleting,
    Encoding { absent: bool },
    Storing { absent: bool, bytes: Seq<u8> },
    Unlocking,
}

impl View for State {
    type V = StateView;

    open spec fn view(&self) -> StateView {
        match self {
            State::Bypassing => StateView::Bypassing,
            State::Acquiring => StateView::Acquiring,
            State::Waiting => StateView::Waiting,
            State::Decoding { bytes } => StateView::Decoding { bytes: bytes@ },
            State::Loading => StateView::Loading,
            State::Deleting => StateView::Deleting,
            State::Encoding { absent } => StateView::Encoding { absent: *absent },
            State::Storing { absent, bytes } => StateView::Storing {
                absent: *absent,
                bytes: bytes@,
            },
            State::Unlocking => StateView::Unlocking,
        }
    }
}

/// What the loader brought.
#[derive(Debug, Clone, Copy, PartialEq, Eq, Structural)]
pub enum Loaded {
    /// A value.
    Present,
    /// Nothing: the backing store has no such value.
    Absent,
    /// An error.
    Failed,
}

/// What came of an action.
#[derive(Debug)]
pub enum Event {
    /// The read script ran. It answers with the entry's value and its lock.
    Read(Result<(Value, Value), CacheError>),
    /// The pause is over.
    Woke,
    /// The bytes of the value were deserialized.
    Decoded(Result<(), rmp_serde::decode::Error>),
    /// The loader ran.
    Loaded(Loaded),
    /// The entry was deleted, or deleting it failed.
    Deleted,
    /// The loader's result was serialized.
    Encoded(Result<Vec<u8>, rmp_serde::encode::Error>),
    /// The store script ran.
    Stored(Result<(), CacheError>),
    /// The unlock script ran, or running it failed.
    Unlocked,
}

/// The mathematical model of an [`Event`].
pub enum EventView {
    Read(Result<(ValueView, ValueView), CacheError>),
    Woke,
    Decoded(Result<(), rmp_serde::decode::Error>),
    Loaded(Loaded),
    Deleted,
    Encoded(Result<Seq<u8>, rmp_serde::encode::Error>),
    Stored(Result<(), CacheError>),
    Unlocked,
}

impl View for Event {
    type V = EventView;

    open spec fn view(&self) -> EventView {
        match self {
            Event::Read(Ok((value, lock))) => EventView::Read(Ok((value@, lock@))),
            Event::Read(Err(err)) => EventView::Read(Err(*err)),
            Event::Woke => EventView::Woke,
            Event::Decoded(result) => EventView::Decoded(*result),
            Event::Loaded(loaded) => EventView::Loaded(*loaded),
            Event::Deleted => EventView::Deleted,
            Event::Encoded(Ok(bytes)) => EventView::Encoded(Ok(bytes@)),
            Event::Encoded(Err(err)) => EventView::Encoded(Err(*err)),
            Event::Stored(result) => EventView::Stored(*result),
            Event::Unlocked => EventView::Unlocked,
        }
    }
}

/// What a read needs done next.
#[derive(Debug, PartialEq, Eq)]
pub enum Action {
    /// Run this script call to its end, then report [`Event::Read`] for the
    /// read script, [`Event::Stored`] for the store script and
    /// [`Event::Unlocked`] for the unlock script.
    Call(ScriptCall),
    /// Pause for this long, then report [`Event::Woke`].
    Sleep(Duration),
    /// Deserialize these bytes, then report [`Event::Decoded`].
    Decode(Vec<u8>),
    /// Run the loader, then report [`Event::Loaded`].
    Load,
    /// Delete the entry of this key outright, then report
    /// [`Event::Deleted`], whatever came of it.
    Delete(String),
    /// Serialize what the loader brought, then report [`Event::Encoded`].
    Encode,
}

/// The mathematical model of an [`Action`].
pub enum ActionView {
    Call(ScriptCallView),
    Sleep(nat),
    Decode(Seq<u8>),
    Load,
    Delete(Seq<char>),
    Encode,
}

impl View for Action {
    type V = ActionView;

    open spec fn view(&self) -> ActionView {
        match self {
            Action::Call(call) => ActionView::Call(call@),
            Action::Sleep(pause) => ActionView::Sleep(pause@),
            Action::Decode(bytes) => ActionView::Decode(bytes@),
            Action::Load => ActionView::Load,
            Action::Delete(key) => ActionView::Delete(key@),
            Action::Encode => ActionView::Encode,
        }
    }
}

/// How a read ended.
#[derive(Debug)]
pub enum Outcome {
    /// The entry was read from the cache: the value that its bytes were
    /// deserialized to is the result of the read.
    Hit,
    /// The loader ran: what it brought is the result of the read, be it a
    /// value, nothing, or its error.
    Loaded,
    /// The read failed.
    Failed(CacheError),
}

/// The mathematical model of an [`Outcome`].
pub enum OutcomeView {
    Hit,
    Loaded,
    Failed(CacheError),
}

impl View for Outcome {
    type V = OutcomeView;

    open spec fn view(&self) -> OutcomeView {
        match self {
            Outcome::Hit => OutcomeView::Hit,
            Outcome::Loaded => OutcomeView::Loaded,
            Outcome::Failed(err) => OutcomeView::Failed(*err),
        }
    }
}

/// A read after one event.
#[derive(Debug)]
pub enum Step {
    /// The read goes on.
    Next(Fetch),
    /// The read is over.
    Done(Outcome),
}

/// The mathematical model of a [`Step`].
pub enum StepView {
    Next(FetchView),
    Done(OutcomeView),
}

impl View for Step {
    type V = StepView;

    open spec fn view(&self) -> StepView {
        match self {
            Step::Next(fetch) => StepView::Next(fetch@),
            Step::Done(outcome) => StepView::Done(outcome@),
        }
    }
}

/// One read of one key.
#[derive(Debug)]
pub struct Fetch {
    /// The key of the entry.
    pub key: String,
    /// The token by which this read owns the lock, once it has it.
    pub owner: String,
    /// The time at which the read began, in seconds since the epoch. Every
    /// run of the read script is made with this time.
    pub now: u64,
    /// The time until which a lock of this read holds.
    pub deadline: u64,
    /// For how long a value that this read stores is to live.
    pub expire: Duration,
    /// The tuning parameters.
    pub options: Options,
    /// What the read is waiting for.
    pub state: State,
}

/// The mathematical model of a [`Fetch`]. Spans of time are in whole seconds
/// but for the pause, which is in nanoseconds.
pub struct FetchView {
    pub key: Seq<char>,
    pub owner: Seq<char>,
    pub now: u64,
    pub deadline: u64,
    pub expire: nat,
    pub empty_expire: nat,
    pub lock_expire: nat,
    pub lock_sleep: nat,
    pub state: StateView,
}

impl View for Fetch {
    type V = FetchView;

    open spec fn view(&self) -> FetchView {
        FetchView {
            key: self.key@,
            owner: self.owner@,
            now: self.now,
            deadline: self.deadline,
            expire: Duration::secs_of(self.expire@),
            empty_expire: Duration::secs_of(self.options.empty_expire@),
            lock_expire: Duration::secs_of(self.options.lock_expire@),
            lock_sleep: self.options.lock_sleep@,
            state: self.state@,
        }
    }
}

impl FetchView {
    /// Whether the spans of the read are whole seconds that a script can be
    /// given. The model of every [`Fetch`] is well formed.
    pub open spec fn well_formed(self) -> bool {
        self.expire <= u64::MAX && self.empty_expire <= u64::MAX && self.lock_expire <= u64::MAX
    }

    /// Whether the loader has run and reported, so that it is not asked for
    /// again.
    pub open spec fn has_loaded(self) -> bool {
        self.state is Deleting || self.state is Encoding || self.state is Storing
            || self.state is Unlocking
    }

    /// The call of the read script: the time of the read, the deadline of the
    /// lock that it asks for, and its owner token.
    pub open spec fn read_call(self) -> ScriptCallView {
        ScriptCallView {
            name: ScriptName::GetScript,
            key: self.key,
            args: seq![
                ArgView::Integer(self.now),
                ArgView::Integer(self.deadline),
                ArgView::Text(self.owner),
            ],
            stage: Stage::First,
        }
    }

    /// For how many seconds a stored result is to live: a value for the
    /// expiry of the read, an absent result for the expiry of absent results.
    pub open spec fn store_expire(self, absent: bool) -> nat {
        if absent {
            self.empty_expire
        } else {
            self.expire
        }
    }

    /// The call of the store script: the bytes, the owner token, and the
    /// seconds that the entry is to live.
    pub open spec fn store_call(self, absent: bool, bytes: Seq<u8>) -> ScriptCallView {
        ScriptCallView {
            name: ScriptName::SetScript,
            key: self.key,
            args: seq![
                ArgView::Bytes(bytes),
                ArgView::Text(self.owner),
                ArgView::Integer(self.store_expire(absent) as u64),
            ],
            stage: Stage::First,
        }
    }

    /// The call of the unlock script: the owner token, and the seconds that
    /// the entry is to live.
    pub open spec fn unlock_call(self) -> ScriptCallView {
        ScriptCallView {
            name: ScriptName::UnlockScript,
            key: self.key,
            args: seq![ArgView::Text(self.owner), ArgView::Integer(self.lock_expire as u64)],
            stage: Stage::First,
        }
    }

    /// What the read needs done next.
    pub open spec fn action(self) -> ActionView {
        match self.state {
            StateView::Bypassing => ActionView::Load,
            StateView::Acquiring => ActionView::Call(self.read_call()),
            StateView::Waiting => ActionView::Sleep(self.lock_sleep),
            StateView::Decoding { bytes } => ActionView::Decode(bytes),
            StateView::Loading => ActionView::Load,
            StateView::Deleting => ActionView::Delete(self.key),
            StateView::Encoding { .. } => ActionView::Encode,
            StateView::Storing { absent, bytes } => ActionView::Call(
                self.store_call(absent, bytes),
            ),
            StateView::Unlocking => ActionView::Call(self.unlock_call()),
        }
    }

    /// The read in another state.
    pub open spec fn with(self, state: StateView) -> FetchView {
        FetchView { state, ..self }
    }

    /// Whether the event is a reply of the read script that hands out a
    /// value which is no bulk string. Such a reply has an unexpected shape.
    pub open spec fn misshapen(self, event: EventView) -> bool {
        &&& self.state is Acquiring
        &&& event matches EventView::Read(Ok((value, lock)))
        &&& lock.lock() == Lock::Free
        &&& !(value is BulkString)
    }

    /// The read after an event.
    ///
    /// With the cache bypassed, the loader's result ends the read.
    ///
    /// A reply of the read script is told apart by its lock field: the word
    /// `LOCKED` gives the lock to this read, which runs the loader; null
    /// leaves the value to be used, which is deserialized and returned;
    /// anything else means that another caller holds the lock, so the read
    /// pauses and asks again.
    ///
    /// A loader that failed has the lock given up and its error returned. A
    /// loader that brought nothing has its result cached for the expiry of
    /// absent results, after the entry was deleted where that is less than a
    /// second. What the loader brought is serialized, stored, and returned,
    /// also where the store script did nothing.
    ///
    /// An event that does not answer the action of the state leaves the read
    /// as it is. For a misshapen reply see [`FetchView::misshapen`].
    pub open spec fn step(self, event: EventView) -> StepView {
        match (self.state, event) {
            (StateView::Bypassing, EventView::Loaded(_)) => StepView::Done(OutcomeView::Loaded),
            (StateView::Acquiring, EventView::Read(Err(err))) => StepView::Done(
                OutcomeView::Failed(err),
            ),
            (StateView::Acquiring, EventView::Read(Ok((value, lock)))) => match lock.lock() {
                Lock::Held => StepView::Next(self.with(StateView::Waiting)),
                Lock::Acquired => StepView::Next(self.with(StateView::Loading)),
                Lock::Free => match value {
                    ValueView::BulkString(bytes) => StepView::Next(
                        self.with(StateView::Decoding { bytes }),
                    ),
                    _ => StepView::Next(self),
                },
            },
            (StateView::Waiting, EventView::Woke) => StepView::Next(
                self.with(StateView::Acquiring),
            ),
            (StateView::Decoding { .. }, EventView::Decoded(Ok(_))) => StepView::Done(
                OutcomeView::Hit,
            ),
            (StateView::Decoding { .. }, EventView::Decoded(Err(err))) => StepView::Done(
                OutcomeView::Failed(CacheError::DecodeError(err)),
            ),
            (StateView::Loading, EventView::Loaded(Loaded::Failed)) => StepView::Next(
                self.with(StateView::Unlocking),
            ),
            (StateView::Loading, EventView::Loaded(Loaded::Present)) => StepView::Next(
                self.with(StateView::Encoding { absent: false }),
            ),
            (StateView::Loading, EventView::Loaded(Loaded::Absent)) => if self.empty_expire == 0 {
                StepView::Next(self.with(StateView::Deleting))
            } else {
                StepView::Next(self.with(StateView::Encoding { absent: true }))
            },
            (StateView::Deleting, EventView::Deleted) => StepView::Next(
                self.with(StateView::Encoding { absent: true }),
            ),
            (StateView::Encoding { absent }, EventView::Encoded(Ok(bytes))) => StepView::Next(
                self.with(StateView::Storing { absent, bytes }),
            ),
            (StateView::Encoding { .. }, EventView::Encoded(Err(err))) => StepView::Done(
                OutcomeView::Failed(CacheError::EncodeError(err)),
            ),
            (StateView::Storing { .. }, EventView::Stored(Ok(_))) => StepView::Done(
                OutcomeView::Loaded,
            ),
            (StateView::Storing { .. }, EventView::Stored(Err(err))) => StepView::Done(
                OutcomeView::Failed(err),
            ),
            (StateView::Unlocking, EventView::Unlocked) => StepView::Done(OutcomeView::Loaded),
            _ => StepView::Next(self),
        }
    }
}

impl Fetch {
    /// A read that begins at the time `now` under the owner token `owner`.
    /// With the cache bypassed it goes straight to the loader; else it runs
    /// the read script first.
    pub fn start(key: String, owner: String, now: u64, expire: Duration, options: Options) -> (fetch:
        Fetch)
        requires
            now + Duration::secs_of(options.lock_expire@) <= u64::MAX,
        ensures
            fetch.key == key,
            fetch.owner == owner,
            fetch.now == now,
            fetch.deadline == now + Duration::secs_of(options.lock_expire@),
            fetch.expire == expire,
            fetch.options == options,
            fetch.state@ == if options.disable_cache_read {
                StateView::Bypassing
            } else {
                StateView::Acquiring
            },
            fetch@.well_formed(),
    {
        let deadline: u64 = now + options.lock_expire.as_secs();
        let state: State = if options.disable_cache_read {
            State::Bypassing
        } else {
            State::Acquiring
        };
        let fetch: Fetch = Fetch { key, owner, now, deadline, expire, options, state };
        fetch.bounded();
        fetch
    }

    /// The spans of the read are whole seconds that a script can be given.
    fn bounded(&self)
        ensures
            self@.well_formed(),
    {
        let _ = self.expire.as_secs();
        let _ = self.options.empty_expire.as_secs();
        let _ = self.options.lock_expire.as_secs();
    }

    /// What the read needs done next.
    pub fn action(&self) -> (action: Action)
        ensures
            action@ == self@.action(),
    {
        match &self.state {
            State::Bypassing => Action::Load,
            State::Acquiring => {
                let mut args: Vec<Arg> = Vec::new();
                args.push(Arg::Integer(self.now));
                args.push(Arg::Integer(self.deadline));
                args.push(Arg::Text(self.owner.clone()));
                assert(arg_views(args@) =~= self@.read_call().args);
                Action::Call(ScriptCall::new(ScriptName::GetScript, self.key.clone(), args))
            },
            State::Waiting => Action::Sleep(self.options.lock_sleep),
            State::Decoding { bytes } => {
                let copy: Vec<u8> = bytes.clone();
                assert(copy@ =~= bytes@);
                Action::Decode(copy)
            },
            State::Loading => Action::Load,
            State::Deleting => Action::Delete(self.key.clone()),
            State::Encoding { .. } => Action::Encode,
            State::Storing { absent, bytes } => {
                let expire: u64 = if *absent {
                    self.options.empty_expire.as_secs()
                } else {
                    self.expire.as_secs()
                };
                let copy: Vec<u8> = bytes.clone();
                assert(copy@ =~= bytes@);
                let mut args: Vec<Arg> = Vec::new();
                args.push(Arg::Bytes(copy));
                args.push(Arg::Text(self.owner.clone()));
                args.push(Arg::Integer(expire));
                assert(arg_views(args@) =~= self@.store_call(*absent, bytes@).args);
                Action::Call(ScriptCall::new(ScriptName::SetScript, self.key.clone(), args))
            },
            State::Unlocking => {
                let mut args: Vec<Arg> = Vec::new();
                args.push(Arg::Text(self.owner.clone()));
                args.push(Arg::Integer(self.options.lock_expire.as_secs()));
                assert(arg_views(args@) =~= self@.unlock_call().args);
                Action::Call(ScriptCall::new(ScriptName::UnlockScript, self.key.clone(), args))
            },
        }
    }

    /// Takes what came of the action. A reply of an unexpected shape ends
    /// the read with a [`CacheError::RedisError`]; every other event is
    /// answered as [`FetchView::step`] says.
    pub fn step(self, event: Event) -> (step: Step)
        ensures
            !self@.misshapen(event@) ==> step@ == self@.step(event@),
            self@.misshapen(event@) ==> (step@ matches StepView::Done(
                OutcomeView::Failed(CacheError::RedisError(_)),
            )),
            self@.well_formed(),
    {
        self.bounded();
        match (self.state, event) {
            (State::Bypassing, Event::Loaded(_)) => Step::Done(Outcome::Loaded),
            (State::Acquiring, Event::Read(Err(err))) => Step::Done(Outcome::Failed(err)),
            (State::Acquiring, Event::Read(Ok((value, lock)))) => match lock.lock() {
                Lock::Held => Step::Next(Fetch { state: State::Waiting, ..self }),
                Lock::Acquired => Step::Next(Fetch { state: State::Loading, ..self }),
                Lock::Free => match value {
                    Value::BulkString(bytes) => Step::Next(
                        Fetch { state: State::Decoding { bytes }, ..self },
                    ),
                    _ => Step::Done(Outcome::Failed(new_redis_error(aborted()))),
                },
            },
            (State::Waiting, Event::Woke) => Step::Next(Fetch { state: State::Acquiring, ..self }),
            (State::Decoding { .. }, Event::Decoded(Ok(_))) => Step::Done(Outcome::Hit),
            (State::Decoding { .. }, Event::Decoded(Err(err))) => Step::Done(
                Outcome::Failed(new_decode_error(err)),
            ),
            (State::Loading, Event::Loaded(Loaded::Failed)) => Step::Next(
                Fetch { state: State::Unlocking, ..self },
            ),
            (State::Loading, Event::Loaded(Loaded::Present)) => Step::Next(
                Fetch { state: State::Encoding { absent: false }, ..self },
            ),
            (State::Loading, Event::Loaded(Loaded::Absent)) => {
                if self.options.empty_expire.as_secs() == 0 {
                    Step::Next(Fetch { state: State::Deleting, ..self })
                } else {
                    Step::Next(Fetch { state: State::Encoding { absent: true }, ..self })
                }
            },
            (State::Deleting, Event::Deleted) => Step::Next(
                Fetch { state: State::Encoding { absent: true }, ..self },
            ),
            (State::Encoding { absent }, Event::Encoded(Ok(bytes))) => Step::Next(
                Fetch { state: State::Storing { absent, bytes }, ..self },
            ),
            (State::Encoding { .. }, Event::Encoded(Err(err))) => Step::Done(
                Outcome::Failed(new_encode_error(err)),
            ),
            (State::Storing { .. }, Event::Stored(Ok(_))) => Step::Done(Outcome::Loaded),
            (State::Storing { .. }, Event::Stored(Err(err))) => Step::Done(Outcome::Failed(err)),
            (State::Unlocking, Event::Unlocked) => Step::Done(Outcome::Loaded),
            (state, _) => Step::Next(Fetch { state, ..self }),
        }
    }
}

} // verus!
