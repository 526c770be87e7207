use std::collections::BTreeSet;

use redis_sweep::address::StoreAddress;
use redis_sweep::machine::{Command, Event, Phase, Sweep};
use redis_sweep::report::{DeletionOutcome, Level, Record};

/// A store in memory: the keys it holds, the keys whose deletion it fails,
/// and whether it can be reached or listed at all.
struct FakeStore {
    keys: BTreeSet<String>,
    stubborn: BTreeSet<String>,
    reachable: bool,
    listable: bool,
}

impl FakeStore {
    fn holding(keys: &[&str]) -> FakeStore {
        FakeStore {
            keys: keys.iter().map(|key| String::from(*key)).collect(),
            stubborn: BTreeSet::new(),
            reachable: true,
            listable: true,
        }
    }

    fn answer(&mut self, command: &Command) -> Event {
        match command {
            Command::Connect => {
                if self.reachable {
                    Event::Connected
                } else {
                    Event::ConnectFailed(vec![String::from("Connection refused")])
                }
            },
            Command::ListAllKeys => {
                if self.listable {
                    Event::KeysListed(self.keys.iter().cloned().collect())
                } else {
                    Event::EnumerationFailed(vec![String::from("NOPERM")])
                }
            },
            Command::Delete(key) => {
                if self.stubborn.contains(key) {
                    Event::DeletionFailed(String::from("READONLY"))
                } else if self.keys.remove(key) {
                    Event::Deleted(1)
                } else {
                    Event::Deleted(0)
                }
            },
            Command::Exit(_) => panic!("nothing answers an exit"),
        }
    }
}

/// What a run did: its requests in order, the records it logged, and the
/// status it ended with.
struct Run {
    requests: Vec<Command>,
    outcomes: Vec<DeletionOutcome>,
    records: Vec<Record>,
    status: i32,
    phase: Phase,
}

fn run(store: &mut FakeStore) -> Run {
    let mut sweep = Sweep::new(StoreAddress::new("redis", "127.0.0.1", 6379));
    let mut requests = Vec::new();
    let mut outcomes = Vec::new();
    let mut records = Vec::new();
    loop {
        let command = sweep.command();
        if let Command::Exit(status) = command {
            requests.push(command);
            records.extend(sweep.summary());
            return Run { requests, outcomes, records, status, phase: sweep.phase() };
        }
        let event = store.answer(&command);
        requests.push(command);
        if let Some(outcome) = sweep.handle(event) {
            records.push(outcome.record());
            outcomes.push(outcome);
        }
    }
}

fn deletions(requests: &[Command]) -> Vec<String> {
    requests
        .iter()
        .filter_map(|request| match request {
            Command::Delete(key) => Some(key.clone()),
            _ => None,
        })
        .collect()
}

#[test]
fn a_run_deletes_every_key_once() {
    let mut store = FakeStore::holding(&["a", "b", "c", "d"]);
    let done = run(&mut store);
    assert_eq!(
        done.requests,
        vec![
            Command::Connect,
            Command::ListAllKeys,
            Command::Delete(String::from("a")),
            Command::Delete(String::from("b")),
            Command::Delete(String::from("c")),
            Command::Delete(String::from("d")),
            Command::Exit(0),
        ]
    );
    assert_eq!(done.status, 0);
    assert_eq!(done.phase, Phase::Done);
    assert!(store.keys.is_empty());
    assert_eq!(done.records.len(), 5);
    assert_eq!(done.records[0].text, "Deleted 'a' from redis server!");
    assert_eq!(done.records[3].text, "Deleted 'd' from redis server!");
    assert_eq!(
        done.records[4],
        Record { level: Level::Info, text: String::from("Program completed!") }
    );
}

#[test]
fn failures_are_reported_and_passed_over() {
    let mut store = FakeStore::holding(&["a", "b", "c"]);
    store.stubborn.insert(String::from("a"));
    store.stubborn.insert(String::from("c"));
    let done = run(&mut store);
    assert_eq!(deletions(&done.requests), vec!["a", "b", "c"]);
    assert_eq!(
        done.outcomes,
        vec![
            DeletionOutcome::Failed(String::from("a"), String::from("READONLY")),
            DeletionOutcome::Deleted(String::from("b")),
            DeletionOutcome::Failed(String::from("c"), String::from("READONLY")),
        ]
    );
    assert_eq!(done.status, 0);
    assert_eq!(
        done.records,
        vec![
            Record {
                level: Level::Error,
                text: String::from("Unable to delete key 'a' from redis server: READONLY"),
            },
            Record { level: Level::Info, text: String::from("Deleted 'b' from redis server!") },
            Record {
                level: Level::Error,
                text: String::from("Unable to delete key 'c' from redis server: READONLY"),
            },
            Record { level: Level::Info, text: String::from("Program completed!") },
        ]
    );
    let left: Vec<&str> = store.keys.iter().map(|key| key.as_str()).collect();
    assert_eq!(left, vec!["a", "c"]);
}

#[test]
fn as_many_deletions_as_keys_whatever_fails() {
    let all = ["k0", "k1", "k2", "k3", "k4", "k5"];
    for mask in 0..(1u32 << all.len()) {
        let mut store = FakeStore::holding(&all);
        for (i, key) in all.iter().enumerate() {
            if mask & (1 << i) != 0 {
                store.stubborn.insert(String::from(*key));
            }
        }
        let done = run(&mut store);
        assert_eq!(deletions(&done.requests), all.to_vec());
        assert_eq!(done.outcomes.len(), all.len());
        assert_eq!(done.status, 0);
        assert_eq!(store.keys.len(), mask.count_ones() as usize);
    }
}

#[test]
fn an_unreachable_store_is_asked_nothing() {
    let mut store = FakeStore::holding(&["a", "b"]);
    store.reachable = false;
    let done = run(&mut store);
    assert_eq!(done.requests, vec![Command::Connect, Command::Exit(1)]);
    assert_eq!(done.status, 1);
    assert_eq!(done.phase, Phase::Aborted);
    assert!(done.outcomes.is_empty());
    assert_eq!(store.keys.len(), 2);
    assert_eq!(
        done.records,
        vec![
            Record {
                level: Level::Error,
                text: String::from("Error: Unable to get redis client connection"),
            },
            Record { level: Level::Error, text: String::from("> Caused by: Connection refused") },
        ]
    );
}

#[test]
fn a_failed_listing_deletes_nothing() {
    let mut store = FakeStore::holding(&["a", "b"]);
    store.listable = false;
    let done = run(&mut store);
    assert_eq!(done.requests, vec![Command::Connect, Command::ListAllKeys, Command::Exit(1)]);
    assert_eq!(done.status, 1);
    assert_eq!(store.keys.len(), 2);
    assert_eq!(done.records[0].text, "Error: Unable to get all keys from redis server");
}

#[test]
fn an_empty_store_completes_without_deletions() {
    let mut store = FakeStore::holding(&[]);
    let done = run(&mut store);
    assert_eq!(done.requests, vec![Command::Connect, Command::ListAllKeys, Command::Exit(0)]);
    assert_eq!(done.status, 0);
    assert!(done.outcomes.is_empty());
    assert_eq!(
        done.records,
        vec![Record { level: Level::Info, text: String::from("Program completed!") }]
    );
}

#[test]
fn a_second_run_finds_nothing() {
    let mut store = FakeStore::holding(&["a", "b", "c"]);
    let first = run(&mut store);
    assert_eq!(deletions(&first.requests).len(), 3);
    let second = run(&mut store);
    assert_eq!(second.requests, vec![Command::Connect, Command::ListAllKeys, Command::Exit(0)]);
    assert!(deletions(&second.requests).is_empty());
    assert_eq!(second.status, 0);
}

#[test]
fn a_key_that_would_not_go_is_found_again() {
    let mut store = FakeStore::holding(&["a", "b"]);
    store.stubborn.insert(String::from("b"));
    let first = run(&mut store);
    assert_eq!(first.status, 0);
    let second = run(&mut store);
    assert_eq!(deletions(&second.requests), vec!["b"]);
}

#[test]
fn keys_written_during_the_sweep_survive_it() {
    let mut sweep = Sweep::new(StoreAddress::new("redis", "127.0.0.1", 6379));
    let mut store = FakeStore::holding(&["a", "b"]);
    let connect = sweep.command();
    sweep.handle(store.answer(&connect));
    let list = sweep.command();
    sweep.handle(store.answer(&list));
    store.keys.insert(String::from("late"));
    loop {
        let command = sweep.command();
        if let Command::Exit(status) = command {
            assert_eq!(status, 0);
            break;
        }
        let event = store.answer(&command);
        sweep.handle(event);
    }
    let left: Vec<&str> = store.keys.iter().map(|key| key.as_str()).collect();
    assert_eq!(left, vec!["late"]);
    assert_eq!(sweep.attempted(), 2);
}
