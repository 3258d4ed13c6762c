use rockscache::script::{Registry, Script, ScriptName};
use rockscache::{
    Action, Arg, CacheError, Client, Command, Dispatch, Duration, Entry, Event, Fetch, Loaded,
    Options, Outcome, Reply, ScriptCall, Step, Value,
};

/// What a script answers: the pair of the read script, or nothing.
type Answer = Option<(Value, Value)>;

/// A server in memory: one entry, the scripts it knows, and the commands it
/// has seen.
struct Server {
    entry: Entry,
    known: Vec<String>,
    log: Vec<String>,
}

const NAMES: [ScriptName; 4] = [
    ScriptName::GetScript,
    ScriptName::SetScript,
    ScriptName::DeleteScript,
    ScriptName::UnlockScript,
];

impl Server {
    /// A server that knows none of the scripts, as after `SCRIPT FLUSH`.
    fn flushed() -> Server {
        Server { entry: Entry::new(), known: Vec::new(), log: Vec::new() }
    }

    /// A server that knows the four scripts.
    fn warm(registry: &Registry) -> Server {
        let mut server = Server::flushed();
        for name in NAMES {
            server.known.push(registry.script(name).hash.clone());
        }
        server
    }

    /// Takes the command that a call sends at its stage.
    fn send(&mut self, registry: &Registry, call: &ScriptCall) -> Reply<Answer> {
        match call.command(registry) {
            Command::ScriptLoad { source } => {
                self.log.push("SCRIPT LOAD".to_string());
                self.known.push(Script::new(source).hash);
                Reply::Answer(None)
            }
            Command::EvalSha { sha1, key, args } => {
                assert_eq!(key, "k");
                assert_eq!(*args, call.args);
                if !self.known.iter().any(|known| known == sha1) {
                    self.log.push("EVALSHA unknown".to_string());
                    return Reply::NoScript(None);
                }
                let name = NAMES
                    .into_iter()
                    .find(|name| registry.script(*name).hash == *sha1)
                    .unwrap();
                assert_eq!(name, call.name);
                self.log.push(format!("EVALSHA {:?}", name));
                assert!(Entry::takes(call), "the script does not take {:?}", call.args);
                Reply::Answer(self.entry.run(call))
            }
        }
    }

    /// Runs a script call to its end.
    fn call(&mut self, registry: &Registry, call: ScriptCall) -> Result<Answer, CacheError> {
        let mut call = call;
        loop {
            let reply = self.send(registry, &call);
            match call.advance(reply) {
                Dispatch::Send(next) => call = next,
                Dispatch::Return(result) => return result,
            }
        }
    }
}

/// What a loader is to bring.
#[derive(Clone)]
enum Plan {
    Value(String),
    Absent,
    Fail(String),
}

/// One caller: its read, its loader, and what it has done so far.
struct Task {
    fetch: Option<Fetch>,
    plan: Plan,
    work: usize,
    loaded: Option<Result<Option<String>, CacheError>>,
    cached: Option<Option<String>>,
    loads: usize,
    sleeps: usize,
    result: Option<Result<Option<String>, CacheError>>,
}

impl Task {
    fn new(fetch: Fetch, plan: Plan) -> Task {
        Task {
            fetch: Some(fetch),
            plan,
            work: 0,
            loaded: None,
            cached: None,
            loads: 0,
            sleeps: 0,
            result: None,
        }
    }

    fn done(&self) -> bool {
        self.result.is_some()
    }

    /// Does what the read asks for and hands it what came of it.
    fn turn(&mut self, server: &mut Server, registry: &Registry) {
        let fetch = self.fetch.take().expect("the read is over");
        let event = match fetch.action() {
            Action::Call(call) => {
                let name = call.name;
                let result = server.call(registry, call);
                match name {
                    ScriptName::GetScript => Event::Read(result.map(|answer| answer.unwrap())),
                    ScriptName::SetScript => Event::Stored(result.map(|_| ())),
                    _ => Event::Unlocked,
                }
            }
            Action::Sleep(pause) => {
                assert_eq!(pause, fetch.options.lock_sleep);
                self.sleeps += 1;
                Event::Woke
            }
            Action::Decode(bytes) => {
                Event::Decoded(rmp_serde::from_slice(&bytes).map(|value| self.cached = Some(value)))
            }
            Action::Load => {
                if self.work > 0 {
                    self.work -= 1;
                    self.fetch = Some(fetch);
                    return;
                }
                self.loads += 1;
                let (loaded, kind) = match self.plan.clone() {
                    Plan::Value(value) => (Ok(Some(value)), Loaded::Present),
                    Plan::Absent => (Ok(None), Loaded::Absent),
                    Plan::Fail(text) => {
                        (Err(CacheError::RedisError(rustis::Error::Client(text))), Loaded::Failed)
                    }
                };
                self.loaded = Some(loaded);
                Event::Loaded(kind)
            }
            Action::Encode => match &self.loaded {
                Some(Ok(value)) => Event::Encoded(rmp_serde::to_vec(value)),
                other => panic!("nothing to serialize: {:?}", other),
            },
            Action::Delete(key) => {
                assert_eq!(key, "k");
                server.log.push("DEL".to_string());
                server.entry.remove();
                Event::Deleted
            }
        };
        match fetch.step(event) {
            Step::Next(fetch) => self.fetch = Some(fetch),
            Step::Done(outcome) => {
                self.result = Some(match outcome {
                    Outcome::Hit => Ok(self.cached.take().unwrap()),
                    Outcome::Loaded => self.loaded.take().unwrap(),
                    Outcome::Failed(err) => Err(err),
                });
            }
        }
    }

    /// Takes turns until the read is over.
    fn run(&mut self, server: &mut Server, registry: &Registry) {
        let mut turns = 0;
        while !self.done() {
            self.turn(server, registry);
            turns += 1;
            assert!(turns < 1000, "the read does not end");
        }
    }

    fn value(&self) -> Option<String> {
        match &self.result {
            Some(Ok(value)) => value.clone(),
            other => panic!("{:?}", other),
        }
    }
}

fn client(options: Options) -> Client<()> {
    Client::new((), options)
}

fn read(client: &Client<()>, owner: &str, timestamp: i64) -> Fetch {
    client
        .fetch_at("k".to_string(), Duration::from_secs(600), owner.to_string(), timestamp)
        .unwrap()
}

fn task(client: &Client<()>, owner: &str, timestamp: i64, value: &str) -> Task {
    Task::new(read(client, owner, timestamp), Plan::Value(value.to_string()))
}

fn entry(value: Option<&Option<&str>>, lock_until: Option<u64>, ttl: Option<u64>) -> Entry {
    Entry {
        value: value.map(|value| rmp_serde::to_vec(value).unwrap()),
        lock_until,
        lock_owner: None,
        ttl,
    }
}

#[test]
fn cold_fetch() {
    let client = client(Options::default());
    let mut server = Server::warm(&client.scripts);
    let mut caller = task(&client, "a", 1000, "v");
    caller.run(&mut server, &client.scripts);
    assert_eq!(caller.value(), Some("v".to_string()));
    assert_eq!(caller.loads, 1);
    assert_eq!(caller.sleeps, 0);
    assert_eq!(server.entry, entry(Some(&Some("v")), None, Some(530)));
    assert_eq!(server.entry.value, Some(vec![0xa1, b'v']));
    assert_eq!(server.log, vec!["EVALSHA GetScript", "EVALSHA SetScript"]);
}

#[test]
fn warm_fetch_does_not_load() {
    let client = client(Options::default());
    let mut server = Server::warm(&client.scripts);
    task(&client, "a", 1000, "v").run(&mut server, &client.scripts);
    let before = entry(Some(&Some("v")), None, Some(530));
    for (i, timestamp) in [1000, 1001, 1500, 1_700_000_000].into_iter().enumerate() {
        let mut caller = task(&client, &format!("b{}", i), timestamp, "other");
        caller.run(&mut server, &client.scripts);
        assert_eq!(caller.value(), Some("v".to_string()));
        assert_eq!(caller.loads, 0);
        assert_eq!(caller.sleeps, 0);
        assert_eq!(server.entry, before);
    }
}

#[test]
fn concurrent_cold_fetch() {
    let client = client(Options::default());
    let mut server = Server::warm(&client.scripts);
    let mut callers: Vec<Task> = (0..50)
        .map(|i| {
            let mut caller = task(&client, &format!("owner{}", i), 1000, &format!("v{}", i));
            caller.work = 2;
            caller
        })
        .collect();
    let mut rounds = 0;
    while callers.iter().any(|caller| !caller.done()) {
        for caller in callers.iter_mut() {
            if !caller.done() {
                caller.turn(&mut server, &client.scripts);
            }
        }
        rounds += 1;
        assert!(rounds < 1000);
    }
    assert_eq!(callers.iter().map(|caller| caller.loads).sum::<usize>(), 1);
    assert_eq!(callers[0].loads, 1);
    assert_eq!(callers[0].sleeps, 0);
    for caller in callers.iter() {
        assert_eq!(caller.value(), Some("v0".to_string()));
    }
    for caller in callers.iter().skip(1) {
        assert!(caller.sleeps >= 1);
        assert_eq!(caller.loads, 0);
    }
    assert_eq!(server.entry, entry(Some(&Some("v0")), None, Some(530)));
}

/// A small generator of numbers for the order of turns.
fn draw(state: &mut u64, bound: usize) -> usize {
    *state = state.wrapping_mul(6364136223846793005).wrapping_add(1442695040888963407);
    ((*state >> 33) as usize) % bound
}

#[test]
fn single_flight_in_any_order() {
    let client = client(Options::default());
    for seed in 0..200u64 {
        let mut state = seed;
        let mut server = Server::warm(&client.scripts);
        if seed % 4 == 1 {
            server.entry = entry(Some(&Some("stale")), Some(0), Some(10));
        }
        if seed % 4 == 2 {
            server.entry = entry(None, Some(999), Some(3));
        }
        let mut callers: Vec<Task> = (0..8)
            .map(|i| {
                let timestamp = 1000 + draw(&mut state, 3) as i64;
                let mut caller =
                    task(&client, &format!("owner{}", i), timestamp, &format!("v{}", i));
                caller.work = draw(&mut state, 4);
                if draw(&mut state, 4) == 0 {
                    caller.plan = Plan::Absent;
                }
                caller
            })
            .collect();
        let mut turns = 0;
        while callers.iter().any(|caller| !caller.done()) {
            let i = draw(&mut state, callers.len());
            if !callers[i].done() {
                callers[i].turn(&mut server, &client.scripts);
            }
            turns += 1;
            assert!(turns < 100_000);
        }
        assert_eq!(callers.iter().map(|caller| caller.loads).sum::<usize>(), 1, "seed {}", seed);
        let loader = callers.iter().position(|caller| caller.loads == 1).unwrap();
        let value = callers[loader].value();
        for caller in callers.iter() {
            assert_eq!(caller.value(), value, "seed {}", seed);
        }
        assert_eq!(server.entry.value, Some(rmp_serde::to_vec(&value).unwrap()));
        assert_eq!(server.entry.lock_until, None);
        assert_eq!(server.entry.lock_owner, None);
    }
}

#[test]
fn crashed_owner_is_replaced_after_the_lock_has_run_out() {
    let client = client(Options::default());
    let mut server = Server::warm(&client.scripts);
    let mut crashed = task(&client, "a", 1000, "never");
    crashed.turn(&mut server, &client.scripts);
    assert_eq!(server.entry.lock_owner, Some("a".to_string()));
    assert_eq!(server.entry.lock_until, Some(1003));

    let mut early = task(&client, "b", 1003, "early");
    for _ in 0..10 {
        early.turn(&mut server, &client.scripts);
    }
    assert!(!early.done());
    assert_eq!(early.loads, 0);
    assert_eq!(early.sleeps, 5);
    assert_eq!(server.entry.lock_owner, Some("a".to_string()));

    let mut late = task(&client, "c", 1004, "fresh");
    late.run(&mut server, &client.scripts);
    assert_eq!(late.value(), Some("fresh".to_string()));
    assert_eq!(late.loads, 1);
    assert_eq!(late.sleeps, 0);

    early.run(&mut server, &client.scripts);
    assert_eq!(early.value(), Some("fresh".to_string()));
    assert_eq!(early.loads, 0);
    assert_eq!(server.entry, entry(Some(&Some("fresh")), None, Some(530)));
}

#[test]
fn stale_owner_stores_nothing() {
    let client = client(Options::default());
    let mut server = Server::warm(&client.scripts);
    let mut slow = task(&client, "a", 1000, "slow");
    slow.work = 1;
    slow.turn(&mut server, &client.scripts);
    slow.turn(&mut server, &client.scripts);

    let mut thief = task(&client, "b", 1004, "quick");
    thief.work = 1;
    thief.turn(&mut server, &client.scripts);
    let held = Entry {
        value: None,
        lock_until: Some(1007),
        lock_owner: Some("b".to_string()),
        ttl: None,
    };
    assert_eq!(server.entry, held);

    slow.run(&mut server, &client.scripts);
    assert_eq!(slow.value(), Some("slow".to_string()));
    assert_eq!(slow.loads, 1);
    assert_eq!(server.entry, held);
    assert_eq!(server.log.last().unwrap(), "EVALSHA SetScript");

    thief.run(&mut server, &client.scripts);
    assert_eq!(thief.value(), Some("quick".to_string()));
    assert_eq!(server.entry, entry(Some(&Some("quick")), None, Some(530)));
}

#[test]
fn tag_delete_then_refetch() {
    let client = client(Options::default());
    let mut server = Server::warm(&client.scripts);
    task(&client, "a", 1000, "old").run(&mut server, &client.scripts);

    let call = client.tag_as_deleted("k".to_string()).unwrap();
    assert!(matches!(server.call(&client.scripts, call), Ok(None)));
    assert_eq!(server.entry, entry(Some(&Some("old")), Some(0), Some(10)));
    assert_eq!(server.entry.lock_owner, None);

    let mut caller = task(&client, "b", 1001, "new");
    caller.run(&mut server, &client.scripts);
    assert_eq!(caller.value(), Some("new".to_string()));
    assert_eq!(caller.loads, 1);
    assert_eq!(server.entry, entry(Some(&Some("new")), None, Some(530)));
}

#[test]
fn tag_delete_of_a_key_that_is_not_there() {
    let client = client(Options::default());
    let mut server = Server::warm(&client.scripts);
    let call = client.tag_as_deleted("k".to_string()).unwrap();
    server.call(&client.scripts, call).unwrap();
    assert_eq!(server.entry, entry(None, Some(0), Some(10)));
    let mut caller = task(&client, "b", 1001, "new");
    caller.run(&mut server, &client.scripts);
    assert_eq!(caller.loads, 1);
    assert_eq!(caller.value(), Some("new".to_string()));
}

#[test]
fn tag_delete_while_disabled_sends_nothing() {
    let mut options = Options::default();
    options.disable_cache_delete = true;
    let client = client(options);
    assert!(client.tag_as_deleted("k".to_string()).is_none());
}

#[test]
fn loader_failure() {
    let client = client(Options::default());
    let mut server = Server::warm(&client.scripts);
    let mut caller = Task::new(read(&client, "a", 1000), Plan::Fail("backend down".to_string()));
    caller.run(&mut server, &client.scripts);
    match &caller.result {
        Some(Err(CacheError::RedisError(rustis::Error::Client(text)))) => {
            assert_eq!(text, "backend down")
        }
        other => panic!("{:?}", other),
    }
    assert_eq!(caller.loads, 1);
    assert_eq!(server.log, vec!["EVALSHA GetScript", "EVALSHA UnlockScript"]);
    assert_eq!(server.entry, entry(None, Some(0), Some(3)));

    let mut next = task(&client, "b", 1000, "v");
    next.run(&mut server, &client.scripts);
    assert_eq!(next.loads, 1);
    assert_eq!(next.value(), Some("v".to_string()));
}

#[test]
fn loader_failure_leaves_the_old_value() {
    let client = client(Options::default());
    let mut server = Server::warm(&client.scripts);
    server.entry = entry(Some(&Some("old")), Some(0), Some(10));
    let mut caller = Task::new(read(&client, "a", 1000), Plan::Fail("backend down".to_string()));
    caller.run(&mut server, &client.scripts);
    assert!(matches!(caller.result, Some(Err(CacheError::RedisError(_)))));
    assert_eq!(server.entry, entry(Some(&Some("old")), Some(0), Some(3)));
}

#[test]
fn negative_caching() {
    let client = client(Options::default());
    let mut server = Server::warm(&client.scripts);
    let mut caller = Task::new(read(&client, "a", 1000), Plan::Absent);
    caller.run(&mut server, &client.scripts);
    assert_eq!(caller.value(), None);
    assert_eq!(caller.loads, 1);
    assert_eq!(server.entry, entry(Some(&None), None, Some(60)));
    assert_eq!(server.entry.value, Some(vec![0xc0]));
    assert_eq!(server.log, vec!["EVALSHA GetScript", "EVALSHA SetScript"]);

    let mut next = task(&client, "b", 1030, "v");
    next.run(&mut server, &client.scripts);
    assert_eq!(next.value(), None);
    assert_eq!(next.loads, 0);
}

#[test]
fn negative_cache_with_empty_expire_zero() {
    let mut options = Options::default();
    options.empty_expire = Duration::from_secs(0);
    let client = client(options);
    let mut server = Server::warm(&client.scripts);
    let mut caller = Task::new(read(&client, "a", 1000), Plan::Absent);
    caller.run(&mut server, &client.scripts);
    assert_eq!(caller.value(), None);
    assert_eq!(caller.loads, 1);
    assert_eq!(server.log, vec!["EVALSHA GetScript", "DEL", "EVALSHA SetScript"]);
    assert!(server.entry.is_absent());
    assert_eq!(server.entry, Entry::new());

    let mut next = Task::new(read(&client, "b", 1000), Plan::Absent);
    next.run(&mut server, &client.scripts);
    assert_eq!(next.loads, 1);
    assert!(server.entry.is_absent());

    let mut last = task(&client, "c", 1000, "v");
    last.run(&mut server, &client.scripts);
    assert_eq!(last.loads, 1);
    assert_eq!(last.value(), Some("v".to_string()));
    assert_eq!(server.entry, entry(Some(&Some("v")), None, Some(530)));
}

#[test]
fn noscript() {
    let client = client(Options::default());
    let mut server = Server::flushed();
    let mut caller = task(&client, "a", 1000, "v");
    caller.run(&mut server, &client.scripts);
    assert_eq!(caller.value(), Some("v".to_string()));
    assert_eq!(caller.loads, 1);
    assert_eq!(
        server.log,
        vec![
            "EVALSHA unknown",
            "SCRIPT LOAD",
            "EVALSHA GetScript",
            "EVALSHA unknown",
            "SCRIPT LOAD",
            "EVALSHA SetScript",
        ]
    );
    assert_eq!(server.entry, entry(Some(&Some("v")), None, Some(530)));

    server.log.clear();
    let mut next = task(&client, "b", 1000, "other");
    next.run(&mut server, &client.scripts);
    assert_eq!(next.value(), Some("v".to_string()));
    assert_eq!(server.log, vec!["EVALSHA GetScript"]);
}

#[test]
fn noscript_costs_one_round_trip_more() {
    let client = client(Options::default());
    for name in NAMES {
        let mut server = Server::flushed();
        let call = match name {
            ScriptName::GetScript => ScriptCall::new(
                name,
                "k".to_string(),
                vec![Arg::Integer(1), Arg::Integer(4), Arg::Text("a".to_string())],
            ),
            ScriptName::SetScript => ScriptCall::new(
                name,
                "k".to_string(),
                vec![Arg::Bytes(vec![1]), Arg::Text("a".to_string()), Arg::Integer(5)],
            ),
            ScriptName::DeleteScript => {
                ScriptCall::new(name, "k".to_string(), vec![Arg::Integer(10)])
            }
            ScriptName::UnlockScript => ScriptCall::new(
                name,
                "k".to_string(),
                vec![Arg::Text("a".to_string()), Arg::Integer(3)],
            ),
        };
        assert!(server.call(&client.scripts, call).is_ok());
        assert_eq!(server.log.len(), 3);
        assert_eq!(server.log[0], "EVALSHA unknown");
        assert_eq!(server.log[1], "SCRIPT LOAD");
        assert_eq!(server.log[2], format!("EVALSHA {:?}", name));
        assert_eq!(server.known, vec![Script::new(name.source()).hash]);
    }
}

#[test]
fn values_come_back_as_they_were_loaded() {
    let client = client(Options::default());
    for value in ["", "v", "LOCKED", "Nil", "kind: NoScript", "héllo wörld", "\0\u{7f}"] {
        let mut server = Server::warm(&client.scripts);
        let mut writer = task(&client, "a", 1000, value);
        writer.run(&mut server, &client.scripts);
        assert_eq!(writer.value(), Some(value.to_string()));
        let mut reader = task(&client, "b", 1000, "other");
        reader.run(&mut server, &client.scripts);
        assert_eq!(reader.value(), Some(value.to_string()));
        assert_eq!(reader.loads, 0);
        assert_eq!(server.log, vec!["EVALSHA GetScript", "EVALSHA SetScript", "EVALSHA GetScript"]);
    }
}

#[test]
fn bytes_that_are_no_value_are_a_decode_error() {
    let client = client(Options::default());
    let mut server = Server::warm(&client.scripts);
    server.entry =
        Entry { value: Some(vec![0xc1]), lock_until: None, lock_owner: None, ttl: Some(530) };
    let mut caller = task(&client, "a", 1000, "v");
    caller.run(&mut server, &client.scripts);
    assert!(matches!(caller.result, Some(Err(CacheError::DecodeError(_)))));
    assert_eq!(caller.loads, 0);
}

#[test]
fn bypassed_cache_goes_to_the_loader_every_time() {
    let mut options = Options::default();
    options.disable_cache_read = true;
    let client = client(options);
    let mut server = Server::warm(&client.scripts);
    for (i, plan) in [Plan::Value("v".to_string()), Plan::Absent, Plan::Value("w".to_string())]
        .into_iter()
        .enumerate()
    {
        let fetch = client.fetch("k".to_string(), Duration::from_secs(600)).unwrap();
        let mut caller = Task::new(fetch, plan.clone());
        caller.run(&mut server, &client.scripts);
        assert_eq!(caller.loads, 1);
        match plan {
            Plan::Value(value) => assert_eq!(caller.value(), Some(value)),
            _ => assert_eq!(caller.value(), None, "{}", i),
        }
    }
    assert!(server.log.is_empty());
    assert!(server.entry.is_absent());
}

#[test]
fn entry_that_died_of_old_age_is_loaded_again() {
    let client = client(Options::default());
    let mut server = Server::warm(&client.scripts);
    task(&client, "a", 1000, "old").run(&mut server, &client.scripts);
    server.entry.remove();
    let mut caller = task(&client, "b", 1600, "new");
    caller.run(&mut server, &client.scripts);
    assert_eq!(caller.loads, 1);
    assert_eq!(caller.value(), Some("new".to_string()));
}
