use rockscache::script::{Registry, ScriptName, GET_SOURCE, UNLOCK_SOURCE};
use rockscache::{Arg, CacheError, Command, Dispatch, Reply, ScriptCall, Stage};

fn read_call() -> ScriptCall {
    ScriptCall::new(
        ScriptName::GetScript,
        "k".to_string(),
        vec![Arg::Integer(100), Arg::Integer(103), Arg::Text("me".to_string())],
    )
}

fn expect_send<R>(dispatch: Dispatch<R>) -> ScriptCall {
    match dispatch {
        Dispatch::Send(call) => call,
        Dispatch::Return(_) => panic!("the call ended"),
    }
}

fn expect_return<R>(dispatch: Dispatch<R>) -> Result<R, CacheError> {
    match dispatch {
        Dispatch::Return(result) => result,
        Dispatch::Send(call) => panic!("the call goes on at {:?}", call.stage),
    }
}

#[test]
fn a_new_call_sends_the_digest() {
    let registry = Registry::new();
    let call = read_call();
    assert_eq!(call.stage, Stage::First);
    assert_eq!(call.name, ScriptName::GetScript);
    assert_eq!(
        call.command(&registry),
        Command::EvalSha {
            sha1: "7dd19794459a6159e760d2cadfefdfda55e52574",
            key: "k",
            args: &vec![Arg::Integer(100), Arg::Integer(103), Arg::Text("me".to_string())],
        }
    );
}

#[test]
fn an_answer_ends_the_call_at_once() {
    let result = expect_return(read_call().advance(Reply::Answer(7)));
    assert!(matches!(result, Ok(7)));
}

#[test]
fn a_failure_ends_the_call_with_a_redis_error() {
    let result = expect_return(read_call().advance(Reply::<u8>::Failed(rustis::Error::Aborted)));
    assert!(matches!(result, Err(CacheError::RedisError(rustis::Error::Aborted))));
    let result = expect_return(
        read_call().advance(Reply::<u8>::Failed(rustis::Error::Client("gone".to_string()))),
    );
    match result {
        Err(CacheError::RedisError(rustis::Error::Client(text))) => assert_eq!(text, "gone"),
        other => panic!("{:?}", other),
    }
}

#[test]
fn an_unknown_script_is_registered_and_called_again() {
    let registry = Registry::new();
    let call = read_call();
    let first = format!("{:?}", call.command(&registry));

    let call = expect_send(call.advance(Reply::NoScript(1)));
    assert_eq!(call.stage, Stage::Loading);
    assert_eq!(call.command(&registry), Command::ScriptLoad { source: GET_SOURCE });

    let call = expect_send(call.advance(Reply::Answer(2)));
    assert_eq!(call.stage, Stage::Retry);
    assert_eq!(format!("{:?}", call.command(&registry)), first);

    let result = expect_return(call.advance(Reply::Answer(3)));
    assert!(matches!(result, Ok(3)));
}

#[test]
fn the_second_call_is_made_even_where_registering_failed() {
    let call = expect_send(read_call().advance(Reply::NoScript(1)));
    let call = expect_send(call.advance(Reply::<u8>::Failed(rustis::Error::Aborted)));
    assert_eq!(call.stage, Stage::Retry);
    let call = expect_send(read_call().advance(Reply::NoScript(1)));
    let call = expect_send(call.advance(Reply::NoScript(2)));
    assert_eq!(call.stage, Stage::Retry);
}

#[test]
fn the_second_call_is_final() {
    let retry = || {
        let call = expect_send(read_call().advance(Reply::NoScript(1)));
        expect_send(call.advance(Reply::Answer(2)))
    };
    assert!(matches!(expect_return(retry().advance(Reply::NoScript(9))), Ok(9)));
    assert!(matches!(expect_return(retry().advance(Reply::Answer(8))), Ok(8)));
    assert!(matches!(
        expect_return(retry().advance(Reply::<u8>::Failed(rustis::Error::EOF))),
        Err(CacheError::RedisError(rustis::Error::EOF))
    ));
}

#[test]
fn a_call_keeps_its_script_key_and_arguments() {
    let registry = Registry::new();
    let call = ScriptCall::new(
        ScriptName::UnlockScript,
        "other".to_string(),
        vec![Arg::Text("me".to_string()), Arg::Integer(3)],
    );
    let call = expect_send(call.advance(Reply::NoScript(())));
    assert_eq!(call.command(&registry), Command::ScriptLoad { source: UNLOCK_SOURCE });
    let call = expect_send(call.advance(Reply::Answer(())));
    assert_eq!(call.name, ScriptName::UnlockScript);
    assert_eq!(call.key, "other");
    assert_eq!(call.args, vec![Arg::Text("me".to_string()), Arg::Integer(3)]);
    assert_eq!(
        call.command(&registry),
        Command::EvalSha {
            sha1: "e760e3c3cc682b2bf93ea8e0ffb70552410a2ac2",
            key: "other",
            args: &vec![Arg::Text("me".to_string()), Arg::Integer(3)],
        }
    );
}

#[test]
fn a_reply_stands_for_its_result() {
    assert!(matches!(rockscache::executor::conclude(Reply::Answer("a")), Ok("a")));
    assert!(matches!(rockscache::executor::conclude(Reply::NoScript("b")), Ok("b")));
    assert!(matches!(
        rockscache::executor::conclude(Reply::<u8>::Failed(rustis::Error::Aborted)),
        Err(CacheError::RedisError(rustis::Error::Aborted))
    ));
}
