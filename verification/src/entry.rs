//! What the four scripts do to an entry.
//!
//! An entry is a hash of up to three fields: the value, the time until which
//! its lock holds, and the lock's owner. [`Entry`] holds such a hash in
//! memory, and its methods do to it what the server does when it runs the
//! script of the same name. They are the reference for what the protocol
//! relies on, and stand in for a server where there is none.

use crate::executor::{Arg, ScriptCall, ScriptCallView};
use crate::script::ScriptName;
use crate::value::{locked_bytes, Value, ValueView};
use vstd::prelude::*;

verus! {

/// The decimal digits of a number, as the server renders it.
pub open spec fn decimal(n: nat) -> Seq<u8>
    decreases n,
{
    if n < 10 {
        seq![(48 + n) as u8]
    } else {
        decimal(n / 10).push((48 + n % 10) as u8)
    }
}

/// A number in decimal begins with a digit, so it is never mistaken for the
/// word `LOCKED`.
pub proof fn lemma_decimal_is_not_locked(n: nat)
    ensures
        decimal(n).len() >= 1,
        48 <= decimal(n)[0] <= 57,
        decimal(n) != locked_bytes(),
    decreases n,
{
    if n >= 10 {
        lemma_decimal_is_not_locked(n / 10);
    }
    assert(locked_bytes()[0] == 76);
}

/// Renders a number in decimal digits.
pub fn to_decimal(n: u64) -> (digits: Vec<u8>)
    ensures
        digits@ == decimal(n as nat),
    decreases n,
{
    if n < 10 {
        let mut digits: Vec<u8> = Vec::new();
        digits.push(48 + n as u8);
        assert(digits@ =~= decimal(n as nat));
        digits
    } else {
        let mut digits: Vec<u8> = to_decimal(n / 10);
        digits.push(48 + (n % 10) as u8);
        digits
    }
}

/// The hash that the server holds under one key. A key that the server does
/// not hold is an entry without any field.
#[derive(Debug, PartialEq, Eq)]
pub struct Entry {
    /// The serialized value, where the entry was ever filled.
    pub value: Option<Vec<u8>>,
    /// The time, in seconds since the epoch, until which the lock holds. Zero
    /// marks an entry that is to be refreshed.
    pub lock_until: Option<u64>,
    /// The token of the caller that holds the lock.
    pub lock_owner: Option<String>,
    /// The seconds that the entry was last given to live, where it was given
    /// any.
    pub ttl: Option<u64>,
}

/// The mathematical model of an [`Entry`].
pub struct EntryView {
    pub value: Option<Seq<u8>>,
    pub lock_until: Option<u64>,
    pub lock_owner: Option<Seq<char>>,
    pub ttl: Option<u64>,
}

impl View for Entry {
    type V = EntryView;

    open spec fn view(&self) -> EntryView {
        EntryView {
            value: match self.value {
                Some(bytes) => Some(bytes@),
                None => None,
            },
            lock_until: self.lock_until,
            lock_owner: match self.lock_owner {
                Some(owner) => Some(owner@),
                None => None,
            },
            ttl: self.ttl,
        }
    }
}

impl EntryView {
    /// The entry of a key that the server does not hold.
    pub open spec fn absent() -> EntryView {
        EntryView { value: None, lock_until: None, lock_owner: None, ttl: None }
    }

    /// Whether the entry has no field, so that the server does not hold it.
    pub open spec fn is_absent(self) -> bool {
        self.value is None && self.lock_until is None && self.lock_owner is None
    }

    /// The entry after `EXPIRE`: it is given `secs` seconds to live. With no
    /// second to live it is gone at once.
    pub open spec fn expiring(self, secs: u64) -> EntryView {
        if self.is_absent() || secs == 0 {
            Self::absent()
        } else {
            EntryView { ttl: Some(secs), ..self }
        }
    }

    /// Whether the read script takes the lock at the time `now`: the lock has
    /// run out, or the entry holds neither a value nor a lock.
    pub open spec fn lockable(self, now: u64) -> bool {
        match self.lock_until {
            Some(until) => until < now,
            None => self.value is None,
        }
    }

    /// The value field as the read script answers it.
    pub open spec fn value_reply(self) -> ValueView {
        match self.value {
            Some(bytes) => ValueView::BulkString(bytes),
            None => ValueView::Nil,
        }
    }

    /// The lock field as the read script answers it where it does not take
    /// the lock.
    pub open spec fn lock_reply(self) -> ValueView {
        match self.lock_until {
            Some(until) => ValueView::BulkString(decimal(until as nat)),
            None => ValueView::Nil,
        }
    }

    /// The entry after the read script, run at the time `now` for the token
    /// `owner` with a lock that would hold until `deadline`.
    pub open spec fn after_get(self, now: u64, deadline: u64, owner: Seq<char>) -> EntryView {
        if self.lockable(now) {
            EntryView {
                lock_until: Some(deadline),
                lock_owner: Some(owner),
                ttl: if self.is_absent() {
                    None
                } else {
                    self.ttl
                },
                ..self
            }
        } else {
            self
        }
    }

    /// What the read script answers at the time `now`: the value, and either
    /// the word `LOCKED` where it takes the lock or the lock field as it is.
    pub open spec fn get_reply(self, now: u64) -> (ValueView, ValueView) {
        if self.lockable(now) {
            (self.value_reply(), ValueView::BulkString(locked_bytes()))
        } else {
            (self.value_reply(), self.lock_reply())
        }
    }

    /// The entry after the store script: for the owner of the lock the value
    /// is stored, the lock is dropped and the entry is given `expire` seconds
    /// to live; for anyone else nothing changes.
    pub open spec fn after_set(self, bytes: Seq<u8>, owner: Seq<char>, expire: u64) -> EntryView {
        if self.lock_owner == Some(owner) {
            EntryView { value: Some(bytes), lock_until: None, lock_owner: None, ..self }.expiring(
                expire,
            )
        } else {
            self
        }
    }

    /// The entry after the delete script: the lock is set to have run out
    /// long ago, it has no owner, and the entry is given `delay` seconds to
    /// live.
    pub open spec fn after_delete(self, delay: u64) -> EntryView {
        EntryView { lock_until: Some(0), lock_owner: None, ..self }.expiring(delay)
    }

    /// The entry after the unlock script: for the owner of the lock the same
    /// as after the delete script, for anyone else nothing changes.
    pub open spec fn after_unlock(self, owner: Seq<char>, expire: u64) -> EntryView {
        if self.lock_owner == Some(owner) {
            self.after_delete(expire)
        } else {
            self
        }
    }

    /// Whether the arguments of a call are those that its script takes.
    pub open spec fn takes(call: ScriptCallView) -> bool {
        match call.name {
            ScriptName::GetScript => call.args.len() == 3 && call.args[0] is Integer
                && call.args[1] is Integer && call.args[2] is Text,
            ScriptName::SetScript => call.args.len() == 3 && call.args[0] is Bytes
                && call.args[1] is Text && call.args[2] is Integer,
            ScriptName::DeleteScript => call.args.len() == 1 && call.args[0] is Integer,
            ScriptName::UnlockScript => call.args.len() == 2 && call.args[0] is Text
                && call.args[1] is Integer,
        }
    }

    /// The entry after a call whose arguments its script takes.
    pub open spec fn after(self, call: ScriptCallView) -> EntryView
        recommends
            Self::takes(call),
    {
        match call.name {
            ScriptName::GetScript => self.after_get(
                call.args[0]->Integer_0,
                call.args[1]->Integer_0,
                call.args[2]->Text_0,
            ),
            ScriptName::SetScript => self.after_set(
                call.args[0]->Bytes_0,
                call.args[1]->Text_0,
                call.args[2]->Integer_0,
            ),
            ScriptName::DeleteScript => self.after_delete(call.args[0]->Integer_0),
            ScriptName::UnlockScript => self.after_unlock(
                call.args[0]->Text_0,
                call.args[1]->Integer_0,
            ),
        }
    }
}

impl Entry {
    /// The entry of a key that the server does not hold.
    pub fn new() -> (entry: Entry)
        ensures
            entry@ == EntryView::absent(),
    {
        Entry { value: None, lock_until: None, lock_owner: None, ttl: None }
    }

    /// Whether the entry has no field.
    pub fn is_absent(&self) -> (absent: bool)
        ensures
            absent == self@.is_absent(),
    {
        self.value.is_none() && self.lock_until.is_none() && self.lock_owner.is_none()
    }

    /// `EXPIRE`: gives the entry `secs` seconds to live.
    pub fn expire(&mut self, secs: u64)
        ensures
            final(self)@ == old(self)@.expiring(secs),
    {
        if self.is_absent() || secs == 0 {
            self.remove();
        } else {
            self.ttl = Some(secs);
        }
    }

    /// `DEL`: removes the entry.
    pub fn remove(&mut self)
        ensures
            final(self)@ == EntryView::absent(),
    {
        self.value = None;
        self.lock_until = None;
        self.lock_owner = None;
        self.ttl = None;
    }

    /// The value field as the read script answers it.
    fn value_reply(&self) -> (reply: Value)
        ensures
            reply@ == self@.value_reply(),
    {
        match &self.value {
            Some(bytes) => {
                let copy: Vec<u8> = bytes.clone();
                assert(copy@ =~= bytes@);
                Value::BulkString(copy)
            },
            None => Value::Nil,
        }
    }

    /// The read script, run at the time `now` for the token `owner` with a
    /// lock that would hold until `deadline`.
    pub fn get(&mut self, now: u64, deadline: u64, owner: &String) -> (reply: (Value, Value))
        ensures
            final(self)@ == old(self)@.after_get(now, deadline, owner@),
            (reply.0@, reply.1@) == old(self)@.get_reply(now),
    {
        let value: Value = self.value_reply();
        let lockable: bool = match self.lock_until {
            Some(until) => until < now,
            None => self.value.is_none(),
        };
        if lockable {
            if self.is_absent() {
                self.ttl = None;
            }
            self.lock_until = Some(deadline);
            self.lock_owner = Some(owner.clone());
            let mut word: Vec<u8> = Vec::new();
            word.push(76);
            word.push(79);
            word.push(67);
            word.push(75);
            word.push(69);
            word.push(68);
            assert(word@ =~= locked_bytes());
            (value, Value::BulkString(word))
        } else {
            let lock: Value = match self.lock_until {
                Some(until) => Value::BulkString(to_decimal(until)),
                None => Value::Nil,
            };
            (value, lock)
        }
    }

    /// Whether the lock is held under the token `owner`.
    fn owned_by(&self, owner: &String) -> (owned: bool)
        ensures
            owned == (self@.lock_owner == Some(owner@)),
    {
        match &self.lock_owner {
            Some(holder) => *holder == *owner,
            None => false,
        }
    }

    /// The store script, run for the token `owner`.
    pub fn set(&mut self, bytes: Vec<u8>, owner: &String, expire: u64)
        ensures
            final(self)@ == old(self)@.after_set(bytes@, owner@, expire),
    {
        if self.owned_by(owner) {
            self.value = Some(bytes);
            self.lock_until = None;
            self.lock_owner = None;
            self.expire(expire);
        }
    }

    /// The delete script.
    pub fn delete(&mut self, delay: u64)
        ensures
            final(self)@ == old(self)@.after_delete(delay),
    {
        self.lock_until = Some(0);
        self.lock_owner = None;
        self.expire(delay);
    }

    /// The unlock script, run for the token `owner`.
    pub fn unlock(&mut self, owner: &String, expire: u64)
        ensures
            final(self)@ == old(self)@.after_unlock(owner@, expire),
    {
        if self.owned_by(owner) {
            self.delete(expire);
        }
    }

    /// Whether the arguments of a call are those that its script takes.
    pub fn takes(call: &ScriptCall) -> (fits: bool)
        ensures
            fits == EntryView::takes(call@),
    {
        match call.name {
            ScriptName::GetScript => call.args.len() == 3 && is_integer(&call.args[0])
                && is_integer(&call.args[1]) && is_text(&call.args[2]),
            ScriptName::SetScript => call.args.len() == 3 && is_bytes(&call.args[0]) && is_text(
                &call.args[1],
            ) && is_integer(&call.args[2]),
            ScriptName::DeleteScript => call.args.len() == 1 && is_integer(&call.args[0]),
            ScriptName::UnlockScript => call.args.len() == 2 && is_text(&call.args[0])
                && is_integer(&call.args[1]),
        }
    }

    /// Runs the script of a call on the entry. The read script answers with
    /// the value and the lock; the other scripts answer nothing.
    pub fn run(&mut self, call: &ScriptCall) -> (reply: Option<(Value, Value)>)
        requires
            EntryView::takes(call@),
        ensures
            final(self)@ == old(self)@.after(call@),
            call.name == ScriptName::GetScript ==> reply.is_some() && (
                reply.unwrap().0@,
                reply.unwrap().1@,
            ) == old(self)@.get_reply(call@.args[0]->Integer_0),
            call.name != ScriptName::GetScript ==> reply is None,
    {
        match call.name {
            ScriptName::GetScript => match (&call.args[0], &call.args[1], &call.args[2]) {
                (Arg::Integer(now), Arg::Integer(deadline), Arg::Text(owner)) => Some(
                    self.get(*now, *deadline, owner),
                ),
                _ => None,
            },
            ScriptName::SetScript => match (&call.args[0], &call.args[1], &call.args[2]) {
                (Arg::Bytes(bytes), Arg::Text(owner), Arg::Integer(expire)) => {
                    let copy: Vec<u8> = bytes.clone();
                    assert(copy@ =~= bytes@);
                    self.set(copy, owner, *expire);
                    None
                },
                _ => None,
            },
            ScriptName::DeleteScript => match &call.args[0] {
                Arg::Integer(delay) => {
                    self.delete(*delay);
                    None
                },
                _ => None,
            },
            ScriptName::UnlockScript => match (&call.args[0], &call.args[1]) {
                (Arg::Text(owner), Arg::Integer(expire)) => {
                    self.unlock(owner, *expire);
                    None
                },
                _ => None,
            },
        }
    }
}

/// Whether an argument is a whole number.
fn is_integer(arg: &Arg) -> (result: bool)
    ensures
        result == (arg@ is Integer),
{
    match arg {
        Arg::Integer(_) => true,
        _ => false,
    }
}

/// Whether an argument is a text.
fn is_text(arg: &Arg) -> (result: bool)
    ensures
        result == (arg@ is Text),
{
    match arg {
        Arg::Text(_) => true,
        _ => false,
    }
}

/// Whether an argument is bytes.
fn is_bytes(arg: &Arg) -> (result: bool)
    ensures
        result == (arg@ is Bytes),
{
    match arg {
        Arg::Bytes(_) => true,
        _ => false,
    }
}

} // verus!
