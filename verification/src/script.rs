//! The four server-side scripts and their SHA-1 digests.
//!
//! Every change of a cache entry goes through one of these scripts, which the
//! server runs atomically. A script is sent by its digest, so each source is
//! paired with the lower-case hexadecimal SHA-1 of its bytes.

use sha1::{Digest, Sha1};
use vstd::prelude::*;
use vstd::string::*;

verus! {

/// Marks an entry as deleted: the lock is set to expired and un-owned, and
/// the whole entry is left to live for `ARGV[1]` more seconds.
pub const DELETE_SOURCE: &'static str = r#"
redis.call('HSET', KEYS[1], 'lockUntil', 0)
redis.call('HDEL', KEYS[1], 'lockOwner')
redis.call('EXPIRE', KEYS[1], ARGV[1])"#;

/// Reads an entry and takes its lock where the lock has run out or the entry
/// holds nothing at all. Answers the value with `LOCKED` where the lock was
/// taken, and the value with the lock's deadline where it was not.
pub const GET_SOURCE: &'static str = r#"
local v = redis.call('HGET', KEYS[1], 'value')
local lu = redis.call('HGET', KEYS[1], 'lockUntil')
if lu ~= false and tonumber(lu) < tonumber(ARGV[1]) or lu == false and v == false then
    redis.call('HSET', KEYS[1], 'lockUntil', ARGV[2])
    redis.call('HSET', KEYS[1], 'lockOwner', ARGV[3])
    return { v, 'LOCKED' }
end
return {v, lu}"#;

/// Stores a value and drops the lock, but only for the lock's owner.
pub const SET_SOURCE: &'static str = r#"
local o = redis.call('HGET', KEYS[1], 'lockOwner')
if o ~= ARGV[2] then
		return
end
redis.call('HSET', KEYS[1], 'value', ARGV[1])
redis.call('HDEL', KEYS[1], 'lockUntil')
redis.call('HDEL', KEYS[1], 'lockOwner')
redis.call('EXPIRE', KEYS[1], ARGV[3])"#;

/// Gives the lock up, but only for the lock's owner.
pub const UNLOCK_SOURCE: &'static str = r#"
local lo = redis.call('HGET', KEYS[1], 'lockOwner')
if lo == ARGV[1] then
	redis.call('HSET', KEYS[1], 'lockUntil', 0)
	redis.call('HDEL', KEYS[1], 'lockOwner')
	redis.call('EXPIRE', KEYS[1], ARGV[2])
end"#;

/// The SHA-1 digest of a sequence of bytes.
pub uninterp spec fn sha1_of(data: Seq<u8>) -> Seq<u8>;

/// The digits of lower-case hexadecimal, in order.
pub open spec fn hex_digit(nibble: u8) -> char
    recommends
        nibble < 16,
{
    "0123456789abcdef"@[nibble as int]
}

/// The lower-case hexadecimal rendering of `bytes`: two digits per byte, the
/// high half first.
pub open spec fn hex(bytes: Seq<u8>) -> Seq<char> {
    Seq::new(
        2 * bytes.len(),
        |i: int|
            if i % 2 == 0 {
                hex_digit(bytes[i / 2] / 16)
            } else {
                hex_digit(bytes[i / 2] % 16)
            },
    )
}

/// The SHA-1 digest of `data`, computed by `sha1::Sha1` (`new`, `update`,
/// `finalize`). Trusted: the digest is a function of the bytes alone, and it
/// is 20 bytes long.
#[verifier::external_body]
fn sha1_digest(data: &[u8]) -> (digest: Vec<u8>)
    ensures
        digest@ == sha1_of(data@),
        digest@.len() == 20,
{
    let mut hasher = Sha1::new();
    hasher.update(data);
    hasher.finalize().to_vec()
}

/// One hexadecimal digit as a string.
fn digit_str(nibble: u8) -> (digit: &'static str)
    requires
        nibble < 16,
    ensures
        digit@ == seq![hex_digit(nibble)],
{
    proof {
        reveal_strlit("0123456789abcdef");
        reveal_strlit("0");
        reveal_strlit("1");
        reveal_strlit("2");
        reveal_strlit("3");
        reveal_strlit("4");
        reveal_strlit("5");
        reveal_strlit("6");
        reveal_strlit("7");
        reveal_strlit("8");
        reveal_strlit("9");
        reveal_strlit("a");
        reveal_strlit("b");
        reveal_strlit("c");
        reveal_strlit("d");
        reveal_strlit("e");
        reveal_strlit("f");
    }
    let digit: &'static str = match nibble {
        0 => "0",
        1 => "1",
        2 => "2",
        3 => "3",
        4 => "4",
        5 => "5",
        6 => "6",
        7 => "7",
        8 => "8",
        9 => "9",
        10 => "a",
        11 => "b",
        12 => "c",
        13 => "d",
        14 => "e",
        _ => "f",
    };
    assert(digit@ =~= seq![hex_digit(nibble)]);
    digit
}

/// Renders bytes as lower-case hexadecimal.
pub fn to_hex(bytes: &[u8]) -> (text: String)
    ensures
        text@ == hex(bytes@),
{
    let mut text: String = String::new();
    let mut i: usize = 0;
    while i < bytes.len()
        invariant
            i <= bytes@.len(),
            text@.len() == 2 * i,
            forall|j: int| 0 <= j < 2 * i ==> text@[j] == hex(bytes@)[j],
        decreases bytes@.len() - i,
    {
        let byte: u8 = bytes[i];
        let high: &'static str = digit_str(byte / 16);
        let low: &'static str = digit_str(byte % 16);
        text.append(high);
        text.append(low);
        i = i + 1;
    }
    assert(text@ =~= hex(bytes@));
    text
}

/// A server-side script: its source and the digest by which it is called.
#[derive(Debug, PartialEq, Eq)]
pub struct Script {
    /// The Lua source.
    pub src: &'static str,
    /// The SHA-1 of the source's bytes, as 40 lower-case hexadecimal digits.
    pub hash: String,
}

impl Script {
    /// The digest that belongs to a source text.
    pub open spec fn digest_of(src: Seq<char>) -> Seq<char> {
        hex(sha1_of(vstd::utf8::encode_utf8(src)))
    }

    /// Whether the digest is the one that belongs to the source.
    pub open spec fn well_formed(&self) -> bool {
        self.hash@ == Self::digest_of(self.src@)
    }

    /// Pairs a source with the SHA-1 of its bytes.
    pub fn new(src: &'static str) -> (script: Script)
        ensures
            script.src@ == src@,
            script.hash@ == Self::digest_of(src@),
            script.hash@.len() == 40,
    {
        let digest: Vec<u8> = sha1_digest(src.as_bytes());
        let hash: String = to_hex(digest.as_slice());
        Script { src, hash }
    }
}

/// The names of the four scripts.
#[derive(Debug, Clone, Copy, PartialEq, Eq, Structural)]
pub enum ScriptName {
    /// Read an entry, taking its lock where it is free to take.
    GetScript,
    /// Store a value and drop the lock.
    SetScript,
    /// Mark an entry as deleted.
    DeleteScript,
    /// Give the lock up.
    UnlockScript,
}

impl ScriptName {
    /// The source of the script of this name.
    pub open spec fn spec_source(self) -> &'static str {
        match self {
            ScriptName::GetScript => GET_SOURCE,
            ScriptName::SetScript => SET_SOURCE,
            ScriptName::DeleteScript => DELETE_SOURCE,
            ScriptName::UnlockScript => UNLOCK_SOURCE,
        }
    }

    /// The source of the script of this name.
    #[verifier::when_used_as_spec(spec_source)]
    pub fn source(self) -> (src: &'static str)
        ensures
            src == self.spec_source(),
    {
        match self {
            ScriptName::GetScript => GET_SOURCE,
            ScriptName::SetScript => SET_SOURCE,
            ScriptName::DeleteScript => DELETE_SOURCE,
            ScriptName::UnlockScript => UNLOCK_SOURCE,
        }
    }
}

/// The table of the four scripts, each with its digest. Built once and only
/// read afterwards.
#[derive(Debug)]
pub struct Registry {
    get: Script,
    set: Script,
    delete: Script,
    unlock: Script,
}

impl Registry {
    #[verifier::type_invariant]
    spec fn holds_the_four(self) -> bool {
        &&& self.get.src@ == GET_SOURCE@ && self.get.well_formed()
        &&& self.set.src@ == SET_SOURCE@ && self.set.well_formed()
        &&& self.delete.src@ == DELETE_SOURCE@ && self.delete.well_formed()
        &&& self.unlock.src@ == UNLOCK_SOURCE@ && self.unlock.well_formed()
    }

    /// The script that the table holds under a name.
    pub closed spec fn spec_script(&self, name: ScriptName) -> Script {
        match name {
            ScriptName::GetScript => self.get,
            ScriptName::SetScript => self.set,
            ScriptName::DeleteScript => self.delete,
            ScriptName::UnlockScript => self.unlock,
        }
    }

    /// Computes the digests of the four scripts.
    pub fn new() -> (registry: Registry)
        ensures
            forall|name: ScriptName|
                (#[trigger] registry.spec_script(name)).src@ == name.spec_source()@
                    && registry.spec_script(name).well_formed(),
    {
        Registry {
            get: Script::new(GET_SOURCE),
            set: Script::new(SET_SOURCE),
            delete: Script::new(DELETE_SOURCE),
            unlock: Script::new(UNLOCK_SOURCE),
        }
    }

    /// The script of the given name: its source, and the digest of its
    /// source.
    pub fn script(&self, name: ScriptName) -> (script: &Script)
        ensures
            *script == self.spec_script(name),
            script.src@ == name.spec_source()@,
            script.hash@ == Script::digest_of(name.spec_source()@),
    {
        proof {
            use_type_invariant(self);
        }
        match name {
            ScriptName::GetScript => &self.get,
            ScriptName::SetScript => &self.set,
            ScriptName::DeleteScript => &self.delete,
            ScriptName::UnlockScript => &self.unlock,
        }
    }
}

} // verus!
