//! What the server answers, as far as the protocol tells answers apart.

use vstd::prelude::*;
use vstd::string::*;
use vstd::utf8::*;

verus! {

/// One value of a server's reply.
#[derive(Debug, PartialEq, Eq)]
pub enum Value {
    /// The null reply: the field or the entry is not there.
    Nil,
    /// A bulk string: bytes of any kind.
    BulkString(Vec<u8>),
    /// A simple string: a short text.
    SimpleString(String),
    /// Any other kind of reply: a number, a list, an error.
    Other,
}

/// The mathematical model of a [`Value`].
pub enum ValueView {
    Nil,
    BulkString(Seq<u8>),
    SimpleString(Seq<char>),
    Other,
}

impl View for Value {
    type V = ValueView;

    open spec fn view(&self) -> ValueView {
        match self {
            Value::Nil => ValueView::Nil,
            Value::BulkString(bytes) => ValueView::BulkString(bytes@),
            Value::SimpleString(text) => ValueView::SimpleString(text@),
            Value::Other => ValueView::Other,
        }
    }
}

/// What the lock field of a reply to the read script says.
#[derive(Debug, Clone, Copy, PartialEq, Eq, Structural)]
pub enum Lock {
    /// The field holds the word `LOCKED`: the script gave the lock to the
    /// caller, who now has to refresh the entry.
    Acquired,
    /// The field is null: nobody holds a lock, and the value can be used.
    Free,
    /// The field holds anything else: another caller holds the lock.
    Held,
}

/// The word by which the read script says that it gave the lock away.
pub open spec fn locked_text() -> Seq<char> {
    "LOCKED"@
}

/// The bytes of [`locked_text`].
pub open spec fn locked_bytes() -> Seq<u8> {
    seq![76u8, 79u8, 67u8, 75u8, 69u8, 68u8]
}

/// The bytes of the word `LOCKED` are those of [`locked_bytes`], and no other
/// text has them.
pub proof fn lemma_locked_bytes(text: Seq<char>)
    ensures
        encode_utf8(locked_text()) == locked_bytes(),
        encode_utf8(text) == locked_bytes() <==> text == locked_text(),
{
    reveal_strlit("LOCKED");
    let word = locked_text();
    assert(is_ascii_chars(word));
    is_ascii_chars_encode_utf8(word);
    assert(encode_utf8(word) =~= locked_bytes());
    if encode_utf8(text) == locked_bytes() {
        encode_utf8_decode_utf8(text);
        encode_utf8_decode_utf8(word);
    }
}

impl ValueView {
    /// Whether the value is the word `LOCKED`, as a bulk or a simple string.
    pub open spec fn is_locked(self) -> bool {
        match self {
            ValueView::BulkString(bytes) => bytes == locked_bytes(),
            ValueView::SimpleString(text) => text == locked_text(),
            _ => false,
        }
    }

    /// What the value says as the lock field of a reply.
    pub open spec fn lock(self) -> Lock {
        if self.is_locked() {
            Lock::Acquired
        } else if self is Nil {
            Lock::Free
        } else {
            Lock::Held
        }
    }
}

/// Whether `bytes` spell the word `LOCKED`.
fn spells_locked(bytes: &[u8]) -> (result: bool)
    ensures
        result == (bytes@ == locked_bytes()),
{
    let result: bool = bytes.len() == 6 && bytes[0] == 76 && bytes[1] == 79 && bytes[2] == 67
        && bytes[3] == 75 && bytes[4] == 69 && bytes[5] == 68;
    proof {
        if result {
            assert(bytes@ =~= locked_bytes());
        }
    }
    result
}

impl Value {
    /// Whether the value is the null reply.
    pub fn is_nil(&self) -> (result: bool)
        ensures
            result == (self@ is Nil),
    {
        match self {
            Value::Nil => true,
            _ => false,
        }
    }

    /// Whether the value is the word `LOCKED`, as a bulk or a simple string.
    pub fn is_locked(&self) -> (result: bool)
        ensures
            result == self@.is_locked(),
    {
        match self {
            Value::BulkString(bytes) => spells_locked(bytes.as_slice()),
            Value::SimpleString(text) => {
                proof {
                    lemma_locked_bytes(text@);
                }
                spells_locked(text.as_str().as_bytes())
            },
            _ => false,
        }
    }

    /// What the value says as the lock field of a reply.
    pub fn lock(&self) -> (result: Lock)
        ensures
            result == self@.lock(),
    {
        if self.is_locked() {
            Lock::Acquired
        } else if self.is_nil() {
            Lock::Free
        } else {
            Lock::Held
        }
    }
}

} // verus!
