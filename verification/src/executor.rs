//! How a script is run on the server.
//!
//! A script is called by its digest. A server that does not know the digest
//! says so; the script's source is then registered and the call is made once
//! more. What the second call brings is final, whether or not registering
//! the source went well: another client may have registered it meanwhile.

use crate::error::{new_redis_error, CacheError};
use crate::script::{Registry, Script, ScriptName};
use vstd::prelude::*;

verus! {

/// One argument of a script.
#[derive(Debug, PartialEq, Eq)]
pub enum Arg {
    /// A whole number, which the server receives in decimal digits.
    Integer(u64),
    /// A text.
    Text(String),
    /// Bytes of any kind.
    Bytes(Vec<u8>),
}

/// The mathematical model of an [`Arg`].
pub enum ArgView {
    Integer(u64),
    Text(Seq<char>),
    Bytes(Seq<u8>),
}

impl View for Arg {
    type V = ArgView;

    open spec fn view(&self) -> ArgView {
        match self {
            Arg::Integer(n) => ArgView::Integer(*n),
            Arg::Text(text) => ArgView::Text(text@),
            Arg::Bytes(bytes) => ArgView::Bytes(bytes@),
        }
    }
}

/// The models of a list of arguments, one by one.
pub open spec fn arg_views(args: Seq<Arg>) -> Seq<ArgView> {
    Seq::new(args.len(), |i: int| args[i]@)
}

/// How far a call has come.
#[derive(Debug, Clone, Copy, PartialEq, Eq, Structural)]
pub enum Stage {
    /// The script is called by its digest for the first time.
    First,
    /// The server did not know the digest: the source is being registered.
    Loading,
    /// The script is called by its digest for the second and last time.
    Retry,
}

/// A command for the server.
#[derive(Debug, PartialEq, Eq)]
pub enum Command<'a> {
    /// `EVALSHA`: run the script of this digest on one key.
    EvalSha { sha1: &'a str, key: &'a str, args: &'a Vec<Arg> },
    /// `SCRIPT LOAD`: register this source.
    ScriptLoad { source: &'static str },
}

/// The mathematical model of a [`Command`].
pub enum CommandView {
    EvalSha { sha1: Seq<char>, key: Seq<char>, args: Seq<ArgView> },
    ScriptLoad { source: Seq<char> },
}

impl<'a> View for Command<'a> {
    type V = CommandView;

    open spec fn view(&self) -> CommandView {
        match self {
            Command::EvalSha { sha1, key, args } => CommandView::EvalSha {
                sha1: sha1@,
                key: key@,
                args: arg_views(args@),
            },
            Command::ScriptLoad { source } => CommandView::ScriptLoad { source: source@ },
        }
    }
}

/// What came back for a command.
#[derive(Debug)]
pub enum Reply<R> {
    /// The server answered that it does not know the script.
    NoScript(R),
    /// The server answered anything else.
    Answer(R),
    /// No answer came: the driver failed.
    Failed(rustis::Error),
}

/// What a call needs next.
#[derive(Debug)]
pub enum Dispatch<R> {
    /// The call goes on: send its next command.
    Send(ScriptCall),
    /// The call is over, with this result.
    Return(Result<R, CacheError>),
}

/// A call of one of the four scripts on one key.
#[derive(Debug, PartialEq, Eq)]
pub struct ScriptCall {
    /// The script to run.
    pub name: ScriptName,
    /// The key of the entry, `KEYS[1]`.
    pub key: String,
    /// The arguments, `ARGV`.
    pub args: Vec<Arg>,
    /// How far the call has come.
    pub stage: Stage,
}

/// The mathematical model of a [`ScriptCall`].
pub struct ScriptCallView {
    pub name: ScriptName,
    pub key: Seq<char>,
    pub args: Seq<ArgView>,
    pub stage: Stage,
}

impl View for ScriptCall {
    type V = ScriptCallView;

    open spec fn view(&self) -> ScriptCallView {
        ScriptCallView {
            name: self.name,
            key: self.key@,
            args: arg_views(self.args@),
            stage: self.stage,
        }
    }
}

impl ScriptCallView {
    /// The command that the call sends at its stage.
    pub open spec fn command(self) -> CommandView {
        match self.stage {
            Stage::Loading => CommandView::ScriptLoad { source: self.name.spec_source()@ },
            _ => CommandView::EvalSha {
                sha1: Script::digest_of(self.name.spec_source()@),
                key: self.key,
                args: self.args,
            },
        }
    }

    /// Whether a reply at this stage ends the call. The first call ends
    /// unless the server does not know the script; registering the source
    /// never ends the call; the second call always does.
    pub open spec fn ends_with<R>(self, reply: Reply<R>) -> bool {
        match self.stage {
            Stage::First => !(reply is NoScript),
            Stage::Loading => false,
            Stage::Retry => true,
        }
    }

    /// The stage that follows a reply which does not end the call.
    pub open spec fn next_stage(self) -> Stage {
        match self.stage {
            Stage::First => Stage::Loading,
            _ => Stage::Retry,
        }
    }
}

/// The result that a reply stands for when it ends a call: the server's
/// answer, or the driver's failure as a [`CacheError::RedisError`].
pub open spec fn outcome<R>(reply: Reply<R>) -> Result<R, CacheError> {
    match reply {
        Reply::NoScript(answer) => Ok(answer),
        Reply::Answer(answer) => Ok(answer),
        Reply::Failed(err) => Err(CacheError::RedisError(err)),
    }
}

impl ScriptCall {
    /// A call that has not sent anything yet.
    pub fn new(name: ScriptName, key: String, args: Vec<Arg>) -> (call: ScriptCall)
        ensures
            call@ == (ScriptCallView {
                name,
                key: key@,
                args: arg_views(args@),
                stage: Stage::First,
            }),
    {
        ScriptCall { name, key, args, stage: Stage::First }
    }

    /// The command to send now.
    pub fn command<'a>(&'a self, registry: &'a Registry) -> (command: Command<'a>)
        ensures
            command@ == self@.command(),
    {
        match self.stage {
            Stage::Loading => Command::ScriptLoad { source: self.name.source() },
            _ => Command::EvalSha {
                sha1: registry.script(self.name).hash.as_str(),
                key: self.key.as_str(),
                args: &self.args,
            },
        }
    }

    /// Takes what came back for the command that was sent, and says how the
    /// call goes on.
    pub fn advance<R>(self, reply: Reply<R>) -> (next: Dispatch<R>)
        ensures
            self@.ends_with(reply) ==> next == Dispatch::Return(outcome(reply)),
            !self@.ends_with(reply) ==> (next matches Dispatch::Send(call) && call@ == (
            ScriptCallView { stage: self@.next_stage(), ..self@ })),
    {
        match self.stage {
            Stage::First => match reply {
                Reply::NoScript(_) => Dispatch::Send(
                    ScriptCall { stage: Stage::Loading, ..self },
                ),
                other => Dispatch::Return(conclude(other)),
            },
            Stage::Loading => Dispatch::Send(ScriptCall { stage: Stage::Retry, ..self }),
            Stage::Retry => Dispatch::Return(conclude(reply)),
        }
    }
}

/// The result that a reply stands for when it ends a call.
pub fn conclude<R>(reply: Reply<R>) -> (result: Result<R, CacheError>)
    ensures
        result == outcome(reply),
{
    match reply {
        Reply::NoScript(answer) => Ok(answer),
        Reply::Answer(answer) => Ok(answer),
        Reply::Failed(err) => Err(new_redis_error(err)),
    }
}

} // verus!
