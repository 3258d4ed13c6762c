//! The entry points of the cache: reading a key and marking a key as deleted.

use crate::duration::Duration;
use crate::executor::{arg_views, Arg, ArgView, ScriptCall, ScriptCallView, Stage};
use crate::fetch::{Fetch, FetchView, StateView};
use crate::options::Options;
use crate::script::{Registry, ScriptName};
use chrono::Local;
use uuid::Uuid;
use vstd::prelude::*;

verus! {

/// Whether a text has the form of an owner token: 32 digits of lower-case
/// hexadecimal.
pub open spec fn is_token(text: Seq<char>) -> bool {
    &&& text.len() == 32
    &&& forall|i: int|
        0 <= i < text.len() ==> ('0' <= #[trigger] text[i] <= '9') || ('a' <= text[i] <= 'f')
}

/// A fresh owner token: `uuid::Uuid::new_v4()`, a random UUID, rendered by
/// `simple()` without hyphens. Trusted: the token is 32 digits of lower-case
/// hexadecimal. Which they are is left open, so two tokens may or may not
/// differ.
#[verifier::external_body]
fn new_owner() -> (owner: String)
    ensures
        is_token(owner@),
{
    Uuid::new_v4().simple().to_string()
}

/// The local clock in seconds since the epoch: `chrono::Local::now()` and its
/// `timestamp()`. Nothing is known of the time that it tells.
#[verifier::external_body]
fn local_timestamp() -> (timestamp: i64) {
    Local::now().timestamp()
}

/// A timestamp as the unsigned number that the scripts are given. A time
/// before the epoch wraps around to a time in the far future.
pub open spec fn epoch_seconds(timestamp: i64) -> u64 {
    if timestamp >= 0 {
        timestamp as u64
    } else {
        (timestamp + 0x1_0000_0000_0000_0000) as u64
    }
}

/// A timestamp as the unsigned number that the scripts are given.
pub fn to_epoch_seconds(timestamp: i64) -> (now: u64)
    ensures
        now == epoch_seconds(timestamp),
{
    let now: u64 = timestamp as u64;
    assert(now == epoch_seconds(timestamp)) by (bit_vector)
        requires
            now == timestamp as u64,
    ;
    now
}

/// The cache, as far as it decides what is to be done. It holds the handle
/// of the connection to the server for whoever sends its commands, the
/// tuning parameters, and the table of the scripts.
#[derive(Debug)]
pub struct Client<R> {
    /// The handle of the connection to the server.
    pub rdb: R,
    /// The tuning parameters.
    pub options: Options,
    /// The table of the scripts.
    pub scripts: Registry,
}

impl<R> Client<R> {
    /// A cache on the given connection with the given parameters. Computes
    /// the digests of the scripts.
    pub fn new(rdb: R, options: Options) -> (client: Client<R>)
        ensures
            client.rdb == rdb,
            client.options == options,
    {
        Client { rdb, options, scripts: Registry::new() }
    }

    /// The handle of the connection to the server.
    pub fn rdb(&self) -> (rdb: &R)
        ensures
            *rdb == self.rdb,
    {
        &self.rdb
    }

    /// The read of `key` that begins at `timestamp` under the token `owner`,
    /// or nothing where the deadline of its lock is beyond the times that can
    /// be told.
    pub open spec fn read_at(
        &self,
        key: Seq<char>,
        expire: nat,
        owner: Seq<char>,
        timestamp: i64,
    ) -> Option<FetchView> {
        let lock_expire = Duration::secs_of(self.options.lock_expire@);
        let fetch = FetchView {
            key,
            owner,
            now: epoch_seconds(timestamp),
            deadline: (epoch_seconds(timestamp) + lock_expire) as u64,
            expire: Duration::secs_of(self.options.effective_expire(expire) as nat),
            empty_expire: Duration::secs_of(self.options.empty_expire@),
            lock_expire,
            lock_sleep: self.options.lock_sleep@,
            state: StateView::Acquiring,
        };
        if epoch_seconds(timestamp) + lock_expire <= u64::MAX {
            Some(fetch)
        } else {
            None
        }
    }

    /// The read of `key` that goes past the cache to the loader.
    pub open spec fn read_past(&self, key: Seq<char>, expire: nat) -> FetchView {
        FetchView {
            key,
            owner: Seq::empty(),
            now: 0,
            deadline: Duration::secs_of(self.options.lock_expire@) as u64,
            expire: Duration::secs_of(self.options.effective_expire(expire) as nat),
            empty_expire: Duration::secs_of(self.options.empty_expire@),
            lock_expire: Duration::secs_of(self.options.lock_expire@),
            lock_sleep: self.options.lock_sleep@,
            state: StateView::Bypassing,
        }
    }

    /// Begins a read of `key` whose value is to live for `expire`, at the
    /// time `timestamp` and under the owner token `owner`.
    ///
    /// A value that the read stores lives for `expire` less the delay and
    /// less the adjustment. With reads of the cache disabled, the read goes
    /// straight to the loader and uses neither the time nor the token.
    /// Nothing is begun where the deadline of the lock, the time plus the
    /// lock's span, is beyond the times that can be told.
    pub fn fetch_at(&self, key: String, expire: Duration, owner: String, timestamp: i64) -> (fetch:
        Option<Fetch>)
        requires
            self.options.effective_expire(expire@) >= 0,
        ensures
            self.options.disable_cache_read ==> fetch.is_some() && fetch.unwrap()@
                == self.read_past(key@, expire@),
            !self.options.disable_cache_read ==> match fetch {
                Some(fetch) => Some(fetch@) == self.read_at(key@, expire@, owner@, timestamp),
                None => self.read_at(key@, expire@, owner@, timestamp) is None,
            },
    {
        let expire: Duration = match self.options.checked_effective_expire(expire) {
            Some(expire) => expire,
            None => vstd::pervasive::unreached(),
        };
        let lock_expire: u64 = self.options.lock_expire.as_secs();
        if self.options.disable_cache_read {
            Some(Fetch::start(key, String::new(), 0, expire, self.options))
        } else {
            let now: u64 = to_epoch_seconds(timestamp);
            match now.checked_add(lock_expire) {
                Some(_) => Some(Fetch::start(key, owner, now, expire, self.options)),
                None => None,
            }
        }
    }

    /// Begins a read of `key` whose value is to live for `expire`, now and
    /// under a fresh owner token: [`Client::fetch_at`] with the time of the
    /// local clock and a token of 32 hexadecimal digits.
    pub fn fetch(&self, key: String, expire: Duration) -> (fetch: Option<Fetch>)
        requires
            self.options.effective_expire(expire@) >= 0,
        ensures
            self.options.disable_cache_read ==> fetch.is_some() && fetch.unwrap()@
                == self.read_past(key@, expire@),
            !self.options.disable_cache_read ==> exists|owner: Seq<char>, timestamp: i64|
                is_token(owner) && match fetch {
                    Some(fetch) => Some(fetch@) == #[trigger] self.read_at(
                        key@,
                        expire@,
                        owner,
                        timestamp,
                    ),
                    None => self.read_at(key@, expire@, owner, timestamp) is None,
                },
    {
        if self.options.disable_cache_read {
            self.fetch_at(key, expire, String::new(), 0)
        } else {
            let owner: String = new_owner();
            let timestamp: i64 = local_timestamp();
            let ghost token = owner@;
            let ghost name = key@;
            let fetch: Option<Fetch> = self.fetch_at(key, expire, owner, timestamp);
            proof {
                let view = self.read_at(name, expire@, token, timestamp);
                assert(is_token(token) && match fetch {
                    Some(fetch) => Some(fetch@) == view,
                    None => view is None,
                });
            }
            fetch
        }
    }

    /// The call of the delete script on `key`: the entry is to live on for
    /// the delay.
    pub open spec fn delete_call(&self, key: Seq<char>) -> ScriptCallView {
        ScriptCallView {
            name: ScriptName::DeleteScript,
            key,
            args: seq![ArgView::Integer(Duration::secs_of(self.options.delay@) as u64)],
            stage: Stage::First,
        }
    }

    /// Marks the entry of `key` as deleted: the next read refreshes it.
    ///
    /// Gives the script call that does it, or nothing where deleting is
    /// disabled: then there is nothing to send and the operation has
    /// succeeded.
    pub fn tag_as_deleted(&self, key: String) -> (call: Option<ScriptCall>)
        ensures
            self.options.disable_cache_delete ==> call is None,
            !self.options.disable_cache_delete ==> call.is_some() && call.unwrap()@
                == self.delete_call(key@),
    {
        if self.options.disable_cache_delete {
            return None;
        }
        let mut args: Vec<Arg> = Vec::new();
        args.push(Arg::Integer(self.options.delay.as_secs()));
        assert(arg_views(args@) =~= self.delete_call(key@).args);
        Some(ScriptCall::new(ScriptName::DeleteScript, key, args))
    }
}

} // verus!
